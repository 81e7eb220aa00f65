use romy_core::input::{InputCollection, InputDevice, InputDeviceType, Nes};
use romy_core::{Info, InputArguments, PlayerInputArguments, StepArguments};

#[test]
fn info_new_gives_every_player_the_same_type() {
    let info = Info::new("Pong", 60, 2, InputDeviceType::Controller);
    assert_eq!(info.name(), "Pong");
    assert_eq!(info.step_interval(), 16_666_666);
    assert_eq!(
        info.players(),
        &vec![InputDeviceType::Controller, InputDeviceType::Controller]
    );
}

#[test]
fn info_without_players() {
    let info = Info::new("", 1, 0, InputDeviceType::Nes);
    assert_eq!(info.name(), "");
    assert_eq!(info.step_interval(), 1_000_000_000);
    assert!(info.players().is_empty());
}

#[test]
fn step_interval_formula() {
    assert_eq!(Info::steps_per_second_to_interval(1), 1_000_000_000);
    assert_eq!(Info::steps_per_second_to_interval(3), 333_333_333);
    assert_eq!(Info::steps_per_second_to_interval(60), 16_666_666);
    assert_eq!(Info::steps_per_second_to_interval(1_000_000_000), 1);
    assert_eq!(Info::steps_per_second_to_interval(1_000_000_001), 0);
    assert_eq!(Info::steps_per_second_to_interval(i32::MAX), 0);
    assert_eq!(Info::steps_per_second_to_interval(-1), 0);
    assert_eq!(Info::steps_per_second_to_interval(i32::MIN), 0);
}

#[test]
fn info_from_parts_and_clone() {
    let info = Info::from_parts(
        "Duel",
        20,
        vec![InputDeviceType::Keyboard, InputDeviceType::Nes],
    );
    let copy = info.clone();
    assert_eq!(copy.name(), "Duel");
    assert_eq!(copy.step_interval(), 20);
    assert_eq!(copy.players(), &vec![InputDeviceType::Keyboard, InputDeviceType::Nes]);
}

#[test]
fn info_new_drives_assignment() {
    let mut pool = InputCollection::new();
    pool.add_input(InputDevice::Nes(Nes { a: true, ..Nes::default() }));
    pool.add_input(InputDevice::Nes(Nes { b: true, ..Nes::default() }));
    pool.add_input(InputDevice::Nes(Nes { up: true, ..Nes::default() }));
    let info = Info::new("Two", 30, 2, InputDeviceType::Nes);
    let step = StepArguments::new(pool.get_input_arguments(&info));
    let input = step.input();
    assert_eq!(input.player_count(), 2);
    // The third pad goes to the first slot in the second pass.
    assert_eq!(
        input.player(0).unwrap().nes(),
        Some(&Nes { a: true, up: true, ..Nes::default() })
    );
    assert_eq!(input.player(1).unwrap().nes(), Some(&Nes { b: true, ..Nes::default() }));
    assert!(input.player(2).is_none());
}

#[test]
fn snapshot_gives_only_the_exact_variant() {
    let player = PlayerInputArguments::new(InputDevice::Nes(Nes { start: true, ..Nes::default() }));
    assert_eq!(player.nes(), Some(&Nes { start: true, ..Nes::default() }));
    assert!(player.controller().is_none());
    assert!(player.keyboard().is_none());
    assert!(matches!(player.input(), InputDevice::Nes(_)));
}

#[test]
fn input_arguments_by_hand() {
    let arguments = InputArguments::new(vec![
        None,
        Some(PlayerInputArguments::new(InputDevice::Nes(Nes::default()))),
    ]);
    assert_eq!(arguments.player_count(), 2);
    assert!(arguments.player(0).is_none());
    assert!(arguments.player(1).is_some());
    assert!(arguments.player(2).is_none());
    assert_eq!(InputArguments::default().player_count(), 0);
    assert!(StepArguments::default().input().player(0).is_none());
}
