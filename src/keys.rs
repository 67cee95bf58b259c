//! Turning keyboard symbols into key identities.

use vstd::prelude::*;

verus! {

/// Keyboard symbol of the digit `0`; the digits follow in order.
pub const KEYSYM_DIGIT_0: u64 = 0x30;

/// Keyboard symbol of the capital letter `A`; the letters follow in order.
pub const KEYSYM_UPPER_A: u64 = 0x41;

/// Keyboard symbol of the small letter `a`; the letters follow in order.
pub const KEYSYM_LOWER_A: u64 = 0x61;

/// Whether `c` is an ASCII digit.
pub open spec fn is_digit_char(c: u8) -> bool {
    '0' as u8 <= c <= '9' as u8
}

/// Whether `c` is an ASCII capital letter.
pub open spec fn is_upper_char(c: u8) -> bool {
    'A' as u8 <= c <= 'Z' as u8
}

/// Whether `c` can be a key identity: a digit or a capital letter.
pub open spec fn is_key_identity(c: u8) -> bool {
    is_digit_char(c) || is_upper_char(c)
}

/// The key identity of a keyboard symbol: a digit stands for itself, a letter
/// of either case for its capital, and every other symbol for no key.
pub open spec fn key_identity_of(keysym: u64) -> Option<u8> {
    if KEYSYM_DIGIT_0 <= keysym < KEYSYM_DIGIT_0 + 10 {
        Some(('0' as u8 + (keysym - KEYSYM_DIGIT_0)) as u8)
    } else if KEYSYM_UPPER_A <= keysym < KEYSYM_UPPER_A + 26 {
        Some(('A' as u8 + (keysym - KEYSYM_UPPER_A)) as u8)
    } else if KEYSYM_LOWER_A <= keysym < KEYSYM_LOWER_A + 26 {
        Some(('A' as u8 + (keysym - KEYSYM_LOWER_A)) as u8)
    } else {
        None
    }
}

/// Maps a keyboard symbol (as the windowing system reports it for group and
/// level 0) to its key identity, or `None` where the symbol names no digit or
/// letter.
pub fn normalize_key(keysym: u64) -> (r: Option<u8>)
    ensures
        r == key_identity_of(keysym),
        r matches Some(c) ==> is_key_identity(c),
{
    if KEYSYM_DIGIT_0 <= keysym && keysym < KEYSYM_DIGIT_0 + 10 {
        Some('0' as u8 + (keysym - KEYSYM_DIGIT_0) as u8)
    } else if KEYSYM_UPPER_A <= keysym && keysym < KEYSYM_UPPER_A + 26 {
        Some('A' as u8 + (keysym - KEYSYM_UPPER_A) as u8)
    } else if KEYSYM_LOWER_A <= keysym && keysym < KEYSYM_LOWER_A + 26 {
        Some('A' as u8 + (keysym - KEYSYM_LOWER_A) as u8)
    } else {
        None
    }
}

} // verus!
