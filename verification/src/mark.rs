//! Tone marks for the keycode engine.

use vstd::prelude::*;

verus! {

pub const NONE: u8 = 0;
pub const ACUTE: u8 = 1;
pub const GRAVE: u8 = 2;
pub const HOOK: u8 = 3;
pub const TILDE: u8 = 4;
pub const DOT: u8 = 5;

} // verus!
