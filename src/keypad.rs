use vstd::prelude::*;

verus! {

/// The host key that stops the machine.
pub const QUIT_KEY: char = 'q';

/// The host keyboard's map onto the 4x4 keypad:
///
/// ```text
/// 1 2 3 4        1 2 3 C
/// Q W E R   ->   4 5 6 D
/// A S D F        7 8 9 E
/// Z X C V        A 0 B F
/// ```
pub open spec fn key_map(c: char) -> Option<u8> {
    match c {
        '1' => Some(0x1u8),
        '2' => Some(0x2u8),
        '3' => Some(0x3u8),
        '4' => Some(0xCu8),
        'Q' => Some(0x4u8),
        'W' => Some(0x5u8),
        'E' => Some(0x6u8),
        'R' => Some(0xDu8),
        'A' => Some(0x7u8),
        'S' => Some(0x8u8),
        'D' => Some(0x9u8),
        'F' => Some(0xEu8),
        'Z' => Some(0xAu8),
        'X' => Some(0x0u8),
        'C' => Some(0xBu8),
        'V' => Some(0xFu8),
        _ => None,
    }
}

/// The keypad code of a host key, if the key is on the keypad.
pub fn keypad_code(c: char) -> (r: Option<u8>)
    ensures
        r == key_map(c),
        r matches Some(k) ==> k < 16,
{
    match c {
        '1' => Some(0x1),
        '2' => Some(0x2),
        '3' => Some(0x3),
        '4' => Some(0xC),
        'Q' => Some(0x4),
        'W' => Some(0x5),
        'E' => Some(0x6),
        'R' => Some(0xD),
        'A' => Some(0x7),
        'S' => Some(0x8),
        'D' => Some(0x9),
        'F' => Some(0xE),
        'Z' => Some(0xA),
        'X' => Some(0x0),
        'C' => Some(0xB),
        'V' => Some(0xF),
        _ => None,
    }
}

/// The upper-case hex digit of a number below 16.
pub open spec fn hex_char(n: u8) -> char
    recommends
        n < 16,
{
    if n < 10 {
        ((n + 0x30) as u8) as char
    } else {
        ((n - 10 + 0x41) as u8) as char
    }
}

/// The upper-case hex digit of the low four bits of `v`.
pub fn hex_digit(v: u8) -> (r: char)
    ensures
        r == hex_char(v % 16),
{
    let n: u8 = v % 16;
    if n < 10 {
        ((n + 0x30) as u8) as char
    } else {
        ((n - 10 + 0x41) as u8) as char
    }
}

} // verus!
