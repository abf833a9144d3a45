//! The sixteen-key pad and the host keys that stand for its keys.

use macroquad::input::KeyCode;
use vstd::prelude::*;

verus! {

/// `macroquad::input::KeyCode`, the host's key names (defined in miniquad).
///
/// The enum has no fields, so Verus reads its variants as they are declared:
/// nothing is assumed about it beyond its definition.
#[verifier::external_type_specification]
pub struct ExKeyCode(KeyCode);

/// The host key that stands for pad key `x`: the digit keys for `0` to `9`,
/// the letter keys `A` to `F` for ten to fifteen, and `Z` for anything that is
/// not a pad key.
pub open spec fn host_key(x: u8) -> KeyCode {
    match x {
        0 => KeyCode::Key0,
        1 => KeyCode::Key1,
        2 => KeyCode::Key2,
        3 => KeyCode::Key3,
        4 => KeyCode::Key4,
        5 => KeyCode::Key5,
        6 => KeyCode::Key6,
        7 => KeyCode::Key7,
        8 => KeyCode::Key8,
        9 => KeyCode::Key9,
        10 => KeyCode::A,
        11 => KeyCode::B,
        12 => KeyCode::C,
        13 => KeyCode::D,
        14 => KeyCode::E,
        15 => KeyCode::F,
        _ => KeyCode::Z,
    }
}

/// The host key that stands for pad key `x`.
pub fn keycode_from_hex(x: u8) -> (key: KeyCode)
    ensures
        key == host_key(x),
{
    match x {
        0 => KeyCode::Key0,
        1 => KeyCode::Key1,
        2 => KeyCode::Key2,
        3 => KeyCode::Key3,
        4 => KeyCode::Key4,
        5 => KeyCode::Key5,
        6 => KeyCode::Key6,
        7 => KeyCode::Key7,
        8 => KeyCode::Key8,
        9 => KeyCode::Key9,
        10 => KeyCode::A,
        11 => KeyCode::B,
        12 => KeyCode::C,
        13 => KeyCode::D,
        14 => KeyCode::E,
        15 => KeyCode::F,
        _ => KeyCode::Z,
    }
}

/// The state of the pad: `keymap[k]` says whether key `k` is held down.
pub struct Keyboard {
    pub keymap: [bool; 16],
}

impl Keyboard {
    /// A pad with no key held down.
    pub fn new() -> (pad: Self)
        ensures
            pad.keymap@ == Seq::new(16, |k: int| false),
    {
        Keyboard { keymap: [false; 16] }
    }
}

} // verus!
