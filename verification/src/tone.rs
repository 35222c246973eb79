//! Vowel shape modifiers for the keycode engine: circumflex and horn.
//!
//! The horn value doubles as the breve when applied to `a`.

use vstd::prelude::*;

verus! {

pub const NONE: u8 = 0;
pub const CIRCUMFLEX: u8 = 1;
pub const HORN: u8 = 2;

} // verus!
