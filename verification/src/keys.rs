//! Key codes, and the table between letters and key codes.
use vstd::prelude::*;

verus! {

// Key codes. The letters carry the numbers that `bevy::prelude::KeyCode` gives its
// variants `A` to `Z`, and `KEY_ESCAPE` that of its variant `Escape`, so that a `KeyCode`
// turns into a key code by a cast.
pub const KEY_A: u32 = 10;
pub const KEY_B: u32 = 11;
pub const KEY_C: u32 = 12;
pub const KEY_D: u32 = 13;
pub const KEY_E: u32 = 14;
pub const KEY_F: u32 = 15;
pub const KEY_G: u32 = 16;
pub const KEY_H: u32 = 17;
pub const KEY_I: u32 = 18;
pub const KEY_J: u32 = 19;
pub const KEY_K: u32 = 20;
pub const KEY_L: u32 = 21;
pub const KEY_M: u32 = 22;
pub const KEY_N: u32 = 23;
pub const KEY_O: u32 = 24;
pub const KEY_P: u32 = 25;
pub const KEY_Q: u32 = 26;
pub const KEY_R: u32 = 27;
pub const KEY_S: u32 = 28;
pub const KEY_T: u32 = 29;
pub const KEY_U: u32 = 30;
pub const KEY_V: u32 = 31;
pub const KEY_W: u32 = 32;
pub const KEY_X: u32 = 33;
pub const KEY_Y: u32 = 34;
pub const KEY_Z: u32 = 35;
pub const KEY_ESCAPE: u32 = 36;

/// Whether `key` is the code of a letter key.
pub open spec fn is_letter_key(key: u32) -> bool {
    KEY_A <= key <= KEY_Z
}

/// The lower-case form of an ASCII letter; any other character is left as it is.
pub open spec fn lower(c: char) -> char {
    if 'A' <= c <= 'Z' {
        ((c as u32) + 32) as char
    } else {
        c
    }
}

/// The key code of the letter `c`, upper or lower case; every other character gives
/// `KEY_ESCAPE`.
pub open spec fn char_keycode(c: char) -> u32 {
    if 'a' <= lower(c) <= 'z' {
        (lower(c) as u32 - 'a' as u32 + KEY_A) as u32
    } else {
        KEY_ESCAPE
    }
}

/// The lower-case letter of a letter key; every other key code gives a blank.
pub open spec fn keycode_char(code: u32) -> char {
    if is_letter_key(code) {
        ((code - KEY_A) as u32 + 'a' as u32) as char
    } else {
        ' '
    }
}

/// The lower-case letter that stands on the key `code`, or a blank for a key that
/// carries no letter.
pub fn get_keycode_char(code: u32) -> (c: char)
    ensures
        c == keycode_char(code),
{
    match code {
        KEY_A => 'a',
        KEY_B => 'b',
        KEY_C => 'c',
        KEY_D => 'd',
        KEY_E => 'e',
        KEY_F => 'f',
        KEY_G => 'g',
        KEY_H => 'h',
        KEY_I => 'i',
        KEY_J => 'j',
        KEY_K => 'k',
        KEY_L => 'l',
        KEY_M => 'm',
        KEY_N => 'n',
        KEY_O => 'o',
        KEY_P => 'p',
        KEY_Q => 'q',
        KEY_R => 'r',
        KEY_S => 's',
        KEY_T => 't',
        KEY_U => 'u',
        KEY_V => 'v',
        KEY_W => 'w',
        KEY_X => 'x',
        KEY_Y => 'y',
        KEY_Z => 'z',
        _ => ' ',
    }
}

/// The key on which the letter `c` stands, whatever its case, or `KEY_ESCAPE` for a
/// character that is no letter of the layout.
pub fn get_char_keycode(c: char) -> (code: u32)
    ensures
        code == char_keycode(c),
{
    match c {
        'a' | 'A' => KEY_A,
        'b' | 'B' => KEY_B,
        'c' | 'C' => KEY_C,
        'd' | 'D' => KEY_D,
        'e' | 'E' => KEY_E,
        'f' | 'F' => KEY_F,
        'g' | 'G' => KEY_G,
        'h' | 'H' => KEY_H,
        'i' | 'I' => KEY_I,
        'j' | 'J' => KEY_J,
        'k' | 'K' => KEY_K,
        'l' | 'L' => KEY_L,
        'm' | 'M' => KEY_M,
        'n' | 'N' => KEY_N,
        'o' | 'O' => KEY_O,
        'p' | 'P' => KEY_P,
        'q' | 'Q' => KEY_Q,
        'r' | 'R' => KEY_R,
        's' | 'S' => KEY_S,
        't' | 'T' => KEY_T,
        'u' | 'U' => KEY_U,
        'v' | 'V' => KEY_V,
        'w' | 'W' => KEY_W,
        'x' | 'X' => KEY_X,
        'y' | 'Y' => KEY_Y,
        'z' | 'Z' => KEY_Z,
        _ => KEY_ESCAPE,
    }
}

} // verus!
