use romy_core::input::{
    Controller, ControllerInit, InputCollection, InputDevice, InputDeviceType, Key, KeyCode,
    Keyboard, Nes,
};
use romy_core::{Info, InputArguments};

fn pad_with_a() -> Nes {
    Nes { a: true, ..Nes::default() }
}

fn controller_with_a() -> Controller {
    Controller::new(ControllerInit { a: true, ..ControllerInit::default() })
}

fn assign(pool: &InputCollection, players: Vec<InputDeviceType>) -> InputArguments {
    pool.get_input_arguments(&Info::from_parts("game", 16_666_666, players))
}

#[test]
fn controller_serves_as_nes_pad() {
    let mut pool = InputCollection::new();
    pool.add_input(InputDevice::Controller(controller_with_a()));
    let result = assign(&pool, vec![InputDeviceType::Nes]);
    assert_eq!(result.player_count(), 1);
    let player = result.player(0).expect("a device for player 0");
    assert_eq!(player.nes(), Some(&pad_with_a()));
    assert!(player.controller().is_none());
    assert!(player.keyboard().is_none());
}

#[test]
fn controller_wins_over_keyboard_and_keyboard_is_absorbed() {
    let mut pool = InputCollection::new();
    pool.add_input(InputDevice::Controller(controller_with_a()));
    pool.add_input(InputDevice::Keyboard(Keyboard::default()));
    let result = assign(&pool, vec![InputDeviceType::Nes]);
    assert_eq!(result.player_count(), 1);
    assert_eq!(result.player(0).unwrap().nes(), Some(&pad_with_a()));
}

#[test]
fn keyboard_first_in_pool_still_loses_to_controller() {
    let mut keyboard = Keyboard::default();
    keyboard.key_down(Key::new(KeyCode::Enter, KeyCode::Enter));
    let mut pool = InputCollection::new();
    pool.add_input(InputDevice::Keyboard(keyboard));
    pool.add_input(InputDevice::Controller(controller_with_a()));
    let (first, rest) = pool.split(&[InputDeviceType::Nes]);
    match &first[0] {
        Some(InputDevice::Nes(nes)) => assert_eq!(*nes, pad_with_a()),
        _ => panic!("the controller should have been picked"),
    }
    assert_eq!(rest.len(), 1);
    assert!(matches!(rest.inputs()[0], InputDevice::Keyboard(_)));
    // The second pass folds the keyboard's start key into the slot.
    let result = assign(&pool, vec![InputDeviceType::Nes]);
    assert_eq!(
        result.player(0).unwrap().nes(),
        Some(&Nes { a: true, start: true, ..Nes::default() })
    );
}

#[test]
fn empty_pool_leaves_every_player_without_device() {
    let pool = InputCollection::new();
    let result = assign(&pool, vec![InputDeviceType::Controller, InputDeviceType::Controller]);
    assert_eq!(result.player_count(), 2);
    assert!(result.player(0).is_none());
    assert!(result.player(1).is_none());
}

#[test]
fn keyboard_key_bound_to_up_presses_up() {
    let mut keyboard = Keyboard::default();
    keyboard.key_down(Key::new(KeyCode::W, KeyCode::W));
    let mut pool = InputCollection::new();
    pool.add_input(InputDevice::Keyboard(keyboard));
    let result = assign(&pool, vec![InputDeviceType::Nes]);
    assert_eq!(
        result.player(0).unwrap().nes(),
        Some(&Nes { up: true, ..Nes::default() })
    );
}

#[test]
fn incompatible_device_is_never_consumed() {
    let mut pool = InputCollection::new();
    pool.add_input(InputDevice::Nes(pad_with_a()));
    let result = assign(&pool, vec![InputDeviceType::Keyboard]);
    assert_eq!(result.player_count(), 1);
    assert!(result.player(0).is_none());
    let (first, rest) = pool.split(&[InputDeviceType::Keyboard]);
    assert_eq!(first.len(), 1);
    assert!(first[0].is_none());
    assert_eq!(rest.len(), 1);
    match &rest.inputs()[0] {
        InputDevice::Nes(nes) => assert_eq!(*nes, pad_with_a()),
        _ => panic!("the pad should have been left"),
    }
}

#[test]
fn no_players_no_slots() {
    let mut pool = InputCollection::new();
    pool.add_input(InputDevice::Nes(pad_with_a()));
    let result = assign(&pool, vec![]);
    assert_eq!(result.player_count(), 0);
    assert!(result.player(0).is_none());
}

#[test]
fn two_controllers_for_one_player_are_merged() {
    let first = Controller::new(ControllerInit {
        a: true,
        left_stick_x: -20000,
        left_trigger: 100,
        ..ControllerInit::default()
    });
    let second = Controller::new(ControllerInit {
        y: true,
        left_stick_x: 5,
        left_trigger: 30000,
        ..ControllerInit::default()
    });
    let mut pool = InputCollection::new();
    pool.add_input(InputDevice::Controller(first));
    pool.add_input(InputDevice::Controller(second));
    let result = assign(&pool, vec![InputDeviceType::Controller]);
    let expected = Controller::new(ControllerInit {
        a: true,
        y: true,
        left_stick_x: 5,
        left_trigger: 30000,
        ..ControllerInit::default()
    });
    assert_eq!(result.player(0).unwrap().controller(), Some(&expected));
}

#[test]
fn three_pads_for_one_player_take_three_passes() {
    let mut pool = InputCollection::new();
    pool.add_input(InputDevice::Nes(Nes { a: true, ..Nes::default() }));
    pool.add_input(InputDevice::Nes(Nes { b: true, ..Nes::default() }));
    pool.add_input(InputDevice::Nes(Nes { select: true, ..Nes::default() }));
    let result = assign(&pool, vec![InputDeviceType::Nes]);
    assert_eq!(
        result.player(0).unwrap().nes(),
        Some(&Nes { a: true, b: true, select: true, ..Nes::default() })
    );
}

#[test]
fn slot_left_empty_by_first_pass_stays_empty() {
    // One pad, two players who want pads, then a keyboard player.
    let mut pool = InputCollection::new();
    pool.add_input(InputDevice::Nes(pad_with_a()));
    let result = assign(
        &pool,
        vec![InputDeviceType::Nes, InputDeviceType::Nes, InputDeviceType::Keyboard],
    );
    assert_eq!(result.player_count(), 3);
    assert_eq!(result.player(0).unwrap().nes(), Some(&pad_with_a()));
    assert!(result.player(1).is_none());
    assert!(result.player(2).is_none());
}

#[test]
fn each_player_takes_the_best_of_what_is_left() {
    let mut keyboard = Keyboard::default();
    keyboard.key_down(Key::new(KeyCode::Tab, KeyCode::Tab));
    let mut pool = InputCollection::new();
    pool.add_input(InputDevice::Keyboard(keyboard));
    pool.add_input(InputDevice::Controller(controller_with_a()));
    pool.add_input(InputDevice::Nes(Nes { b: true, ..Nes::default() }));
    let players = vec![InputDeviceType::Nes, InputDeviceType::Nes, InputDeviceType::Nes];
    let (first, rest) = pool.split(&players);
    assert_eq!(rest.len(), 0);
    let pads: Vec<Nes> = first
        .iter()
        .map(|slot| match slot {
            Some(InputDevice::Nes(nes)) => *nes,
            _ => panic!("every slot should hold a pad"),
        })
        .collect();
    assert_eq!(
        pads,
        vec![
            Nes { b: true, ..Nes::default() },
            Nes { a: true, ..Nes::default() },
            Nes { select: true, ..Nes::default() },
        ]
    );
}

#[test]
fn earlier_of_two_equal_fits_is_chosen() {
    let mut pool = InputCollection::new();
    pool.add_input(InputDevice::Nes(Nes { left: true, ..Nes::default() }));
    pool.add_input(InputDevice::Nes(Nes { right: true, ..Nes::default() }));
    let (first, rest) = pool.split(&[InputDeviceType::Nes]);
    match &first[0] {
        Some(InputDevice::Nes(nes)) => assert_eq!(*nes, Nes { left: true, ..Nes::default() }),
        _ => panic!("a pad should have been picked"),
    }
    assert_eq!(rest.len(), 1);
    match &rest.inputs()[0] {
        InputDevice::Nes(nes) => assert_eq!(*nes, Nes { right: true, ..Nes::default() }),
        _ => panic!("the second pad should have been left"),
    }
}

#[test]
fn out_of_range_player_is_none() {
    let mut pool = InputCollection::new();
    pool.add_input(InputDevice::Nes(pad_with_a()));
    let result = assign(&pool, vec![InputDeviceType::Nes]);
    assert!(result.player(0).is_some());
    assert!(result.player(1).is_none());
    assert!(result.player(-1).is_none());
    assert!(result.player(i32::MAX).is_none());
    assert!(result.player(i32::MIN).is_none());
}

#[test]
fn assignment_leaves_the_pool_as_it_was() {
    let mut pool = InputCollection::new();
    pool.add_input(InputDevice::Controller(controller_with_a()));
    pool.add_input(InputDevice::Nes(pad_with_a()));
    let _ = assign(&pool, vec![InputDeviceType::Nes]);
    assert_eq!(pool.len(), 2);
    assert!(matches!(pool.inputs()[0], InputDevice::Controller(_)));
    assert!(matches!(pool.inputs()[1], InputDevice::Nes(_)));
}
