use romy_core::input::{
    Controller, ControllerInit, InputCollection, InputCombine, InputConvert, InputDevice,
    InputDeviceType, Key, KeyCode, Keyboard, Nes,
};

fn keyboard_with(scan_code: KeyCode, key_code: KeyCode) -> Keyboard {
    let mut keyboard = Keyboard::new();
    keyboard.key_down(Key::new(scan_code, key_code));
    keyboard
}

#[test]
fn pool_affinity_is_the_least_of_its_members() {
    let mut pool = InputCollection::new();
    assert_eq!(pool.affinity(InputDeviceType::Nes), None);
    pool.add_input(InputDevice::Keyboard(Keyboard::default()));
    assert_eq!(pool.affinity(InputDeviceType::Nes), Some(2));
    assert_eq!(pool.affinity(InputDeviceType::Keyboard), Some(0));
    assert_eq!(pool.affinity(InputDeviceType::Controller), None);
    pool.add_input(InputDevice::Controller(Controller::default()));
    assert_eq!(pool.affinity(InputDeviceType::Nes), Some(1));
    assert_eq!(pool.affinity(InputDeviceType::Controller), Some(0));
    pool.add_input(InputDevice::Nes(Nes::default()));
    assert_eq!(pool.affinity(InputDeviceType::Nes), Some(0));
    pool.add_input(InputDevice::Keyboard(Keyboard::default()));
    assert_eq!(pool.affinity(InputDeviceType::Nes), Some(0));
}

#[test]
fn pool_convert_combines_every_member_that_converts() {
    let mut pool = InputCollection::new();
    assert!(pool.convert(InputDeviceType::Nes).is_none());
    pool.add_input(InputDevice::Nes(Nes { a: true, ..Nes::default() }));
    pool.add_input(InputDevice::Controller(Controller::new(ControllerInit {
        b: true,
        left_stick_y: 30000,
        ..ControllerInit::default()
    })));
    pool.add_input(InputDevice::Keyboard(keyboard_with(KeyCode::Enter, KeyCode::Enter)));
    match pool.convert(InputDeviceType::Nes) {
        Some(InputDevice::Nes(nes)) => assert_eq!(
            nes,
            Nes { a: true, b: true, down: true, start: true, ..Nes::default() }
        ),
        _ => panic!("the pool should convert to a pad"),
    }
    match pool.convert(InputDeviceType::Controller) {
        Some(InputDevice::Controller(controller)) => assert_eq!(
            controller,
            Controller::new(ControllerInit { b: true, left_stick_y: 30000, ..ControllerInit::default() })
        ),
        _ => panic!("the pool should convert to a controller"),
    }
}

#[test]
fn pool_convert_to_keyboard_folds_in_insertion_order() {
    let mut pool = InputCollection::new();
    pool.add_input(InputDevice::Keyboard(keyboard_with(KeyCode::A, KeyCode::_1)));
    pool.add_input(InputDevice::Nes(Nes::default()));
    pool.add_input(InputDevice::Keyboard(keyboard_with(KeyCode::A, KeyCode::_2)));
    pool.add_input(InputDevice::Keyboard(keyboard_with(KeyCode::B, KeyCode::_3)));
    match pool.convert(InputDeviceType::Keyboard) {
        Some(InputDevice::Keyboard(keyboard)) => {
            assert_eq!(keyboard.pressed().len(), 2);
            assert!(keyboard.is_down_scan(KeyCode::A));
            assert!(keyboard.is_down_scan(KeyCode::B));
            // The keyboard further back in the pool decides the key code.
            assert!(keyboard.is_down_key(KeyCode::_2));
            assert!(!keyboard.is_down_key(KeyCode::_1));
            assert!(keyboard.is_down_key(KeyCode::_3));
        }
        _ => panic!("the pool should convert to a keyboard"),
    }
}

#[test]
fn pool_of_pads_does_not_convert_to_keyboard() {
    let mut pool = InputCollection::new();
    pool.add_input(InputDevice::Nes(Nes::default()));
    pool.add_input(InputDevice::Controller(Controller::default()));
    assert!(pool.convert(InputDeviceType::Keyboard).is_none());
    assert_eq!(pool.affinity(InputDeviceType::Keyboard), None);
}

#[test]
fn pool_combine_appends() {
    let mut first = InputCollection::new();
    first.add_input(InputDevice::Nes(Nes { a: true, ..Nes::default() }));
    let mut second = InputCollection::default();
    second.add_input(InputDevice::Controller(Controller::default()));
    second.add_input(InputDevice::Keyboard(Keyboard::default()));
    let both = first.combine(&second);
    assert_eq!(both.len(), 3);
    assert!(matches!(both.inputs()[0], InputDevice::Nes(_)));
    assert!(matches!(both.inputs()[1], InputDevice::Controller(_)));
    assert!(matches!(both.inputs()[2], InputDevice::Keyboard(_)));
    assert_eq!(first.len(), 1);
    assert_eq!(second.len(), 2);
    assert_eq!(second.combine(&InputCollection::new()).len(), 2);
}

#[test]
fn pool_clone_holds_the_same_devices() {
    let mut pool = InputCollection::new();
    pool.add_input(InputDevice::Keyboard(keyboard_with(KeyCode::Z, KeyCode::Y)));
    pool.add_input(InputDevice::Nes(Nes { b: true, ..Nes::default() }));
    let copy = pool.clone();
    assert_eq!(copy.len(), 2);
    match &copy.inputs()[0] {
        InputDevice::Keyboard(keyboard) => {
            assert!(keyboard.is_down_scan(KeyCode::Z));
            assert!(keyboard.is_down_key(KeyCode::Y));
        }
        _ => panic!("the keyboard comes first"),
    }
    match &copy.inputs()[1] {
        InputDevice::Nes(nes) => assert_eq!(*nes, Nes { b: true, ..Nes::default() }),
        _ => panic!("the pad comes second"),
    }
}

#[test]
fn split_with_no_players_leaves_everything() {
    let mut pool = InputCollection::new();
    pool.add_input(InputDevice::Nes(Nes::default()));
    pool.add_input(InputDevice::Controller(Controller::default()));
    let (found, rest) = pool.split(&[]);
    assert!(found.is_empty());
    assert_eq!(rest.len(), 2);
}

#[test]
fn split_removes_only_the_device_picked() {
    let mut pool = InputCollection::new();
    pool.add_input(InputDevice::Keyboard(keyboard_with(KeyCode::A, KeyCode::A)));
    pool.add_input(InputDevice::Controller(Controller::default()));
    pool.add_input(InputDevice::Keyboard(keyboard_with(KeyCode::B, KeyCode::B)));
    let (found, rest) = pool.split(&[InputDeviceType::Controller, InputDeviceType::Keyboard]);
    assert!(matches!(found[0], Some(InputDevice::Controller(_))));
    match &found[1] {
        Some(InputDevice::Keyboard(keyboard)) => assert!(keyboard.is_down_scan(KeyCode::A)),
        _ => panic!("the first keyboard should have been picked"),
    }
    assert_eq!(rest.len(), 1);
    match &rest.inputs()[0] {
        InputDevice::Keyboard(keyboard) => assert!(keyboard.is_down_scan(KeyCode::B)),
        _ => panic!("the second keyboard should have been left"),
    }
}
