use romy_core::input::key_names::{convert_key, convert_key_code};
use romy_core::input::{Key, KeyCode};

#[test]
fn digits_by_their_code_names() {
    assert_eq!(convert_key_code("Digit1"), Some(KeyCode::_1));
    assert_eq!(convert_key_code("Digit2"), Some(KeyCode::_2));
    assert_eq!(convert_key_code("Digit3"), Some(KeyCode::_3));
    assert_eq!(convert_key_code("Digit4"), Some(KeyCode::_4));
    assert_eq!(convert_key_code("Digit5"), Some(KeyCode::_5));
    assert_eq!(convert_key_code("Digit6"), Some(KeyCode::_6));
    assert_eq!(convert_key_code("Digit7"), Some(KeyCode::_7));
    assert_eq!(convert_key_code("Digit8"), Some(KeyCode::_8));
    assert_eq!(convert_key_code("Digit9"), Some(KeyCode::_9));
    assert_eq!(convert_key_code("Digit0"), Some(KeyCode::_0));
    assert_eq!(convert_key_code("1"), None);
}

#[test]
fn letters_by_three_names() {
    let codes = [
        KeyCode::A, KeyCode::B, KeyCode::C, KeyCode::D, KeyCode::E, KeyCode::F, KeyCode::G,
        KeyCode::H, KeyCode::I, KeyCode::J, KeyCode::K, KeyCode::L, KeyCode::M, KeyCode::N,
        KeyCode::O, KeyCode::P, KeyCode::Q, KeyCode::R, KeyCode::S, KeyCode::T, KeyCode::U,
        KeyCode::V, KeyCode::W, KeyCode::X, KeyCode::Y, KeyCode::Z,
    ];
    for (offset, code) in codes.iter().enumerate() {
        let upper = (b'A' + offset as u8) as char;
        let lower = (b'a' + offset as u8) as char;
        assert_eq!(convert_key_code(&format!("Key{}", upper)), Some(*code));
        assert_eq!(convert_key_code(&upper.to_string()), Some(*code));
        assert_eq!(convert_key_code(&lower.to_string()), Some(*code));
        assert_eq!(convert_key_code(&format!("Key{}", lower)), None);
    }
}

#[test]
fn arrows_and_punctuation() {
    assert_eq!(convert_key_code("ArrowUp"), Some(KeyCode::Up));
    assert_eq!(convert_key_code("ArrowDown"), Some(KeyCode::Down));
    assert_eq!(convert_key_code("ArrowLeft"), Some(KeyCode::Left));
    assert_eq!(convert_key_code("ArrowRight"), Some(KeyCode::Right));
    assert_eq!(convert_key_code("BracketLeft"), Some(KeyCode::LeftBracket));
    assert_eq!(convert_key_code("BracketRight"), Some(KeyCode::RightBracket));
    assert_eq!(convert_key_code("Slash"), Some(KeyCode::Slash));
    assert_eq!(convert_key_code("Backslash"), Some(KeyCode::Backslash));
    assert_eq!(convert_key_code("Comma"), Some(KeyCode::Comma));
    assert_eq!(convert_key_code("Period"), Some(KeyCode::Period));
    assert_eq!(convert_key_code("Semicolon"), Some(KeyCode::Semicolon));
    assert_eq!(convert_key_code("Quote"), Some(KeyCode::Quote));
}

#[test]
fn names_without_a_code() {
    assert_eq!(convert_key_code(""), None);
    assert_eq!(convert_key_code("Enter"), None);
    assert_eq!(convert_key_code("Tab"), None);
    assert_eq!(convert_key_code("Up"), None);
    assert_eq!(convert_key_code("keya"), None);
    assert_eq!(convert_key_code("KeyA "), None);
    assert_eq!(convert_key_code("Digit10"), None);
}

#[test]
fn key_needs_both_names() {
    assert_eq!(convert_key("KeyQ", "a"), Some(Key::new(KeyCode::Q, KeyCode::A)));
    assert_eq!(convert_key("ArrowUp", "ArrowUp"), Some(Key::new(KeyCode::Up, KeyCode::Up)));
    assert_eq!(convert_key("KeyQ", "Enter"), None);
    assert_eq!(convert_key("Enter", "a"), None);
    assert_eq!(convert_key("", ""), None);
}
