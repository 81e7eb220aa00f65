//! The names under which keyboard events report keys.

use vstd::prelude::*;
use crate::input::keyboard::{Key, KeyCode};

verus! {

/// `==` on `str`: whether the two hold the same text.
#[verifier::external_body]
fn same_text(left: &str, right: &str) -> (same: bool)
    ensures
        same == (left@ == right@),
{
    left == right
}

/// The code of the key that a keyboard event names. A digit goes by
/// `Digit` and the digit, a letter by `Key` and the capital letter or by the
/// letter alone in either case, an arrow by `Arrow` and its direction, and
/// the punctuation keys by their names. Any other name has no code.
pub open spec fn key_code_named(name: Seq<char>) -> Option<KeyCode> {
    if name == "Digit1"@ {
        Some(KeyCode::_1)
    } else if name == "Digit2"@ {
        Some(KeyCode::_2)
    } else if name == "Digit3"@ {
        Some(KeyCode::_3)
    } else if name == "Digit4"@ {
        Some(KeyCode::_4)
    } else if name == "Digit5"@ {
        Some(KeyCode::_5)
    } else if name == "Digit6"@ {
        Some(KeyCode::_6)
    } else if name == "Digit7"@ {
        Some(KeyCode::_7)
    } else if name == "Digit8"@ {
        Some(KeyCode::_8)
    } else if name == "Digit9"@ {
        Some(KeyCode::_9)
    } else if name == "Digit0"@ {
        Some(KeyCode::_0)
    } else if name == "KeyA"@ || name == "a"@ || name == "A"@ {
        Some(KeyCode::A)
    } else if name == "KeyB"@ || name == "b"@ || name == "B"@ {
        Some(KeyCode::B)
    } else if name == "KeyC"@ || name == "c"@ || name == "C"@ {
        Some(KeyCode::C)
    } else if name == "KeyD"@ || name == "d"@ || name == "D"@ {
        Some(KeyCode::D)
    } else if name == "KeyE"@ || name == "e"@ || name == "E"@ {
        Some(KeyCode::E)
    } else if name == "KeyF"@ || name == "f"@ || name == "F"@ {
        Some(KeyCode::F)
    } else if name == "KeyG"@ || name == "g"@ || name == "G"@ {
        Some(KeyCode::G)
    } else if name == "KeyH"@ || name == "h"@ || name == "H"@ {
        Some(KeyCode::H)
    } else if name == "KeyI"@ || name == "i"@ || name == "I"@ {
        Some(KeyCode::I)
    } else if name == "KeyJ"@ || name == "j"@ || name == "J"@ {
        Some(KeyCode::J)
    } else if name == "KeyK"@ || name == "k"@ || name == "K"@ {
        Some(KeyCode::K)
    } else if name == "KeyL"@ || name == "l"@ || name == "L"@ {
        Some(KeyCode::L)
    } else if name == "KeyM"@ || name == "m"@ || name == "M"@ {
        Some(KeyCode::M)
    } else if name == "KeyN"@ || name == "n"@ || name == "N"@ {
        Some(KeyCode::N)
    } else if name == "KeyO"@ || name == "o"@ || name == "O"@ {
        Some(KeyCode::O)
    } else if name == "KeyP"@ || name == "p"@ || name == "P"@ {
        Some(KeyCode::P)
    } else if name == "KeyQ"@ || name == "q"@ || name == "Q"@ {
        Some(KeyCode::Q)
    } else if name == "KeyR"@ || name == "r"@ || name == "R"@ {
        Some(KeyCode::R)
    } else if name == "KeyS"@ || name == "s"@ || name == "S"@ {
        Some(KeyCode::S)
    } else if name == "KeyT"@ || name == "t"@ || name == "T"@ {
        Some(KeyCode::T)
    } else if name == "KeyU"@ || name == "u"@ || name == "U"@ {
        Some(KeyCode::U)
    } else if name == "KeyV"@ || name == "v"@ || name == "V"@ {
        Some(KeyCode::V)
    } else if name == "KeyW"@ || name == "w"@ || name == "W"@ {
        Some(KeyCode::W)
    } else if name == "KeyX"@ || name == "x"@ || name == "X"@ {
        Some(KeyCode::X)
    } else if name == "KeyY"@ || name == "y"@ || name == "Y"@ {
        Some(KeyCode::Y)
    } else if name == "KeyZ"@ || name == "z"@ || name == "Z"@ {
        Some(KeyCode::Z)
    } else if name == "ArrowUp"@ {
        Some(KeyCode::Up)
    } else if name == "ArrowDown"@ {
        Some(KeyCode::Down)
    } else if name == "ArrowLeft"@ {
        Some(KeyCode::Left)
    } else if name == "ArrowRight"@ {
        Some(KeyCode::Right)
    } else if name == "BracketLeft"@ {
        Some(KeyCode::LeftBracket)
    } else if name == "BracketRight"@ {
        Some(KeyCode::RightBracket)
    } else if name == "Slash"@ {
        Some(KeyCode::Slash)
    } else if name == "Backslash"@ {
        Some(KeyCode::Backslash)
    } else if name == "Comma"@ {
        Some(KeyCode::Comma)
    } else if name == "Period"@ {
        Some(KeyCode::Period)
    } else if name == "Semicolon"@ {
        Some(KeyCode::Semicolon)
    } else if name == "Quote"@ {
        Some(KeyCode::Quote)
    } else {
        None
    }
}

/// The key of a keyboard event that names the position of the key
/// `scan_code` and what the key produces `key_code`. `None` unless both names
/// have a code.
pub open spec fn key_named(scan_code: Seq<char>, key_code: Seq<char>) -> Option<Key> {
    match (key_code_named(scan_code), key_code_named(key_code)) {
        (Some(scan_code), Some(key_code)) => Some(Key { scan_code, key_code }),
        _ => None,
    }
}

/// The code of the key that a keyboard event names, `None` if the name has
/// no code.
pub fn convert_key_code(key: &str) -> (code: Option<KeyCode>)
    ensures
        code == key_code_named(key@),
{
    if same_text(key, "Digit1") {
        Some(KeyCode::_1)
    } else if same_text(key, "Digit2") {
        Some(KeyCode::_2)
    } else if same_text(key, "Digit3") {
        Some(KeyCode::_3)
    } else if same_text(key, "Digit4") {
        Some(KeyCode::_4)
    } else if same_text(key, "Digit5") {
        Some(KeyCode::_5)
    } else if same_text(key, "Digit6") {
        Some(KeyCode::_6)
    } else if same_text(key, "Digit7") {
        Some(KeyCode::_7)
    } else if same_text(key, "Digit8") {
        Some(KeyCode::_8)
    } else if same_text(key, "Digit9") {
        Some(KeyCode::_9)
    } else if same_text(key, "Digit0") {
        Some(KeyCode::_0)
    } else if same_text(key, "KeyA") || same_text(key, "a") || same_text(key, "A") {
        Some(KeyCode::A)
    } else if same_text(key, "KeyB") || same_text(key, "b") || same_text(key, "B") {
        Some(KeyCode::B)
    } else if same_text(key, "KeyC") || same_text(key, "c") || same_text(key, "C") {
        Some(KeyCode::C)
    } else if same_text(key, "KeyD") || same_text(key, "d") || same_text(key, "D") {
        Some(KeyCode::D)
    } else if same_text(key, "KeyE") || same_text(key, "e") || same_text(key, "E") {
        Some(KeyCode::E)
    } else if same_text(key, "KeyF") || same_text(key, "f") || same_text(key, "F") {
        Some(KeyCode::F)
    } else if same_text(key, "KeyG") || same_text(key, "g") || same_text(key, "G") {
        Some(KeyCode::G)
    } else if same_text(key, "KeyH") || same_text(key, "h") || same_text(key, "H") {
        Some(KeyCode::H)
    } else if same_text(key, "KeyI") || same_text(key, "i") || same_text(key, "I") {
        Some(KeyCode::I)
    } else if same_text(key, "KeyJ") || same_text(key, "j") || same_text(key, "J") {
        Some(KeyCode::J)
    } else if same_text(key, "KeyK") || same_text(key, "k") || same_text(key, "K") {
        Some(KeyCode::K)
    } else if same_text(key, "KeyL") || same_text(key, "l") || same_text(key, "L") {
        Some(KeyCode::L)
    } else if same_text(key, "KeyM") || same_text(key, "m") || same_text(key, "M") {
        Some(KeyCode::M)
    } else if same_text(key, "KeyN") || same_text(key, "n") || same_text(key, "N") {
        Some(KeyCode::N)
    } else if same_text(key, "KeyO") || same_text(key, "o") || same_text(key, "O") {
        Some(KeyCode::O)
    } else if same_text(key, "KeyP") || same_text(key, "p") || same_text(key, "P") {
        Some(KeyCode::P)
    } else if same_text(key, "KeyQ") || same_text(key, "q") || same_text(key, "Q") {
        Some(KeyCode::Q)
    } else if same_text(key, "KeyR") || same_text(key, "r") || same_text(key, "R") {
        Some(KeyCode::R)
    } else if same_text(key, "KeyS") || same_text(key, "s") || same_text(key, "S") {
        Some(KeyCode::S)
    } else if same_text(key, "KeyT") || same_text(key, "t") || same_text(key, "T") {
        Some(KeyCode::T)
    } else if same_text(key, "KeyU") || same_text(key, "u") || same_text(key, "U") {
        Some(KeyCode::U)
    } else if same_text(key, "KeyV") || same_text(key, "v") || same_text(key, "V") {
        Some(KeyCode::V)
    } else if same_text(key, "KeyW") || same_text(key, "w") || same_text(key, "W") {
        Some(KeyCode::W)
    } else if same_text(key, "KeyX") || same_text(key, "x") || same_text(key, "X") {
        Some(KeyCode::X)
    } else if same_text(key, "KeyY") || same_text(key, "y") || same_text(key, "Y") {
        Some(KeyCode::Y)
    } else if same_text(key, "KeyZ") || same_text(key, "z") || same_text(key, "Z") {
        Some(KeyCode::Z)
    } else if same_text(key, "ArrowUp") {
        Some(KeyCode::Up)
    } else if same_text(key, "ArrowDown") {
        Some(KeyCode::Down)
    } else if same_text(key, "ArrowLeft") {
        Some(KeyCode::Left)
    } else if same_text(key, "ArrowRight") {
        Some(KeyCode::Right)
    } else if same_text(key, "BracketLeft") {
        Some(KeyCode::LeftBracket)
    } else if same_text(key, "BracketRight") {
        Some(KeyCode::RightBracket)
    } else if same_text(key, "Slash") {
        Some(KeyCode::Slash)
    } else if same_text(key, "Backslash") {
        Some(KeyCode::Backslash)
    } else if same_text(key, "Comma") {
        Some(KeyCode::Comma)
    } else if same_text(key, "Period") {
        Some(KeyCode::Period)
    } else if same_text(key, "Semicolon") {
        Some(KeyCode::Semicolon)
    } else if same_text(key, "Quote") {
        Some(KeyCode::Quote)
    } else {
        None
    }
}

/// The key that a keyboard event reports by the name of its position and the
/// name of what it produces, `None` unless both names have a code.
pub fn convert_key(scan_code: &str, key_code: &str) -> (key: Option<Key>)
    ensures
        key == key_named(scan_code@, key_code@),
{
    if let Some(scan_code) = convert_key_code(scan_code) {
        if let Some(key_code) = convert_key_code(key_code) {
            return Some(Key::new(scan_code, key_code));
        }
    }
    None
}

} // verus!
