//! Virtual keycode constants.
//!
//! The keycode engine identifies keys by small integers: the letters in
//! alphabetical order, the digit row, and a few special keys.

use vstd::prelude::*;

verus! {

pub const A: u16 = 0;
pub const B: u16 = 1;
pub const C: u16 = 2;
pub const D: u16 = 3;
pub const E: u16 = 4;
pub const F: u16 = 5;
pub const G: u16 = 6;
pub const H: u16 = 7;
pub const I: u16 = 8;
pub const J: u16 = 9;
pub const K: u16 = 10;
pub const L: u16 = 11;
pub const M: u16 = 12;
pub const N: u16 = 13;
pub const O: u16 = 14;
pub const P: u16 = 15;
pub const Q: u16 = 16;
pub const R: u16 = 17;
pub const S: u16 = 18;
pub const T: u16 = 19;
pub const U: u16 = 20;
pub const V: u16 = 21;
pub const W: u16 = 22;
pub const X: u16 = 23;
pub const Y: u16 = 24;
pub const Z: u16 = 25;

pub const N0: u16 = 48;
pub const N1: u16 = 49;
pub const N2: u16 = 50;
pub const N3: u16 = 51;
pub const N4: u16 = 52;
pub const N5: u16 = 53;
pub const N6: u16 = 54;
pub const N7: u16 = 55;
pub const N8: u16 = 56;
pub const N9: u16 = 57;

pub const SPACE: u16 = 100;
pub const BACKSPACE: u16 = 101;
pub const ESC: u16 = 102;

} // verus!
