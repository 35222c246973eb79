//! Keycode classification and conversion between keycodes and characters.

use vstd::prelude::*;
use crate::keys;

verus! {

/// A keycode denoting one of the six Vietnamese vowel letters.
pub open spec fn spec_is_vowel(key: u16) -> bool {
    key == keys::A || key == keys::E || key == keys::I || key == keys::O || key == keys::U
        || key == keys::Y
}

/// A keycode denoting a letter that is not a vowel.
pub open spec fn spec_is_consonant(key: u16) -> bool {
    key <= keys::Z && !spec_is_vowel(key)
}

/// A keycode denoting a letter.
pub open spec fn spec_is_letter(key: u16) -> bool {
    key <= keys::Z
}

/// A keycode denoting a digit.
pub open spec fn spec_is_number(key: u16) -> bool {
    keys::N0 <= key <= keys::N9
}

/// Check whether a keycode is one of the six vowel letters.
pub fn is_vowel(key: u16) -> (r: bool)
    ensures
        r == spec_is_vowel(key),
{
    key == keys::A || key == keys::E || key == keys::I || key == keys::O || key == keys::U
        || key == keys::Y
}

/// Check whether a keycode is a consonant letter.
pub fn is_consonant(key: u16) -> (r: bool)
    ensures
        r == spec_is_consonant(key),
{
    key <= keys::Z && !is_vowel(key)
}

/// Check whether a keycode is a letter.
pub fn is_letter(key: u16) -> (r: bool)
    ensures
        r == spec_is_letter(key),
{
    key <= keys::Z
}

/// Check whether a keycode is a digit.
pub fn is_number(key: u16) -> (r: bool)
    ensures
        r == spec_is_number(key),
{
    keys::N0 <= key && key <= keys::N9
}

/// The keycode a character maps to, ignoring case.
pub open spec fn spec_from_char(c: char) -> Option<u16> {
    spec_from_char_lower(spec_ascii_lower(c))
}

/// ASCII lowercasing; characters outside `A ..= Z` are unchanged.
pub open spec fn spec_ascii_lower(c: char) -> char {
    if 'A' <= c <= 'Z' {
        ((c as u32) + 32) as char
    } else {
        c
    }
}

pub open spec fn spec_from_char_lower(c: char) -> Option<u16> {
    match c {
        'a' => Some(keys::A),
        'b' => Some(keys::B),
        'c' => Some(keys::C),
        'd' => Some(keys::D),
        'e' => Some(keys::E),
        'f' => Some(keys::F),
        'g' => Some(keys::G),
        'h' => Some(keys::H),
        'i' => Some(keys::I),
        'j' => Some(keys::J),
        'k' => Some(keys::K),
        'l' => Some(keys::L),
        'm' => Some(keys::M),
        'n' => Some(keys::N),
        'o' => Some(keys::O),
        'p' => Some(keys::P),
        'q' => Some(keys::Q),
        'r' => Some(keys::R),
        's' => Some(keys::S),
        't' => Some(keys::T),
        'u' => Some(keys::U),
        'v' => Some(keys::V),
        'w' => Some(keys::W),
        'x' => Some(keys::X),
        'y' => Some(keys::Y),
        'z' => Some(keys::Z),
        '0' => Some(keys::N0),
        '1' => Some(keys::N1),
        '2' => Some(keys::N2),
        '3' => Some(keys::N3),
        '4' => Some(keys::N4),
        '5' => Some(keys::N5),
        '6' => Some(keys::N6),
        '7' => Some(keys::N7),
        '8' => Some(keys::N8),
        '9' => Some(keys::N9),
        ' ' => Some(keys::SPACE),
        _ => None,
    }
}

/// Convert a character to its keycode; letters map regardless of case.
pub fn from_char(c: char) -> (r: Option<u16>)
    ensures
        r == spec_from_char(c),
{
    let lower: char = ascii_lower(c);
    match lower {
        'a' => Some(keys::A),
        'b' => Some(keys::B),
        'c' => Some(keys::C),
        'd' => Some(keys::D),
        'e' => Some(keys::E),
        'f' => Some(keys::F),
        'g' => Some(keys::G),
        'h' => Some(keys::H),
        'i' => Some(keys::I),
        'j' => Some(keys::J),
        'k' => Some(keys::K),
        'l' => Some(keys::L),
        'm' => Some(keys::M),
        'n' => Some(keys::N),
        'o' => Some(keys::O),
        'p' => Some(keys::P),
        'q' => Some(keys::Q),
        'r' => Some(keys::R),
        's' => Some(keys::S),
        't' => Some(keys::T),
        'u' => Some(keys::U),
        'v' => Some(keys::V),
        'w' => Some(keys::W),
        'x' => Some(keys::X),
        'y' => Some(keys::Y),
        'z' => Some(keys::Z),
        '0' => Some(keys::N0),
        '1' => Some(keys::N1),
        '2' => Some(keys::N2),
        '3' => Some(keys::N3),
        '4' => Some(keys::N4),
        '5' => Some(keys::N5),
        '6' => Some(keys::N6),
        '7' => Some(keys::N7),
        '8' => Some(keys::N8),
        '9' => Some(keys::N9),
        ' ' => Some(keys::SPACE),
        _ => None,
    }
}

/// Lowercase an ASCII letter; other characters are unchanged.
pub fn ascii_lower(c: char) -> (r: char)
    ensures
        r == spec_ascii_lower(c),
{
    if 'A' <= c && c <= 'Z' {
        (((c as u32) + 32) as u8) as char
    } else {
        c
    }
}

/// Uppercase an ASCII letter; other characters are unchanged.
pub open spec fn spec_ascii_upper(c: char) -> char {
    if 'a' <= c <= 'z' {
        ((c as u32) - 32) as char
    } else {
        c
    }
}

pub fn ascii_upper(c: char) -> (r: char)
    ensures
        r == spec_ascii_upper(c),
{
    if 'a' <= c && c <= 'z' {
        (((c as u32) - 32) as u8) as char
    } else {
        c
    }
}

/// The lowercase character a keycode prints as.
pub open spec fn spec_to_char_lower(key: u16) -> Option<char> {
    if key == keys::A {
        Some('a')
    } else if key == keys::B {
        Some('b')
    } else if key == keys::C {
        Some('c')
    } else if key == keys::D {
        Some('d')
    } else if key == keys::E {
        Some('e')
    } else if key == keys::F {
        Some('f')
    } else if key == keys::G {
        Some('g')
    } else if key == keys::H {
        Some('h')
    } else if key == keys::I {
        Some('i')
    } else if key == keys::J {
        Some('j')
    } else if key == keys::K {
        Some('k')
    } else if key == keys::L {
        Some('l')
    } else if key == keys::M {
        Some('m')
    } else if key == keys::N {
        Some('n')
    } else if key == keys::O {
        Some('o')
    } else if key == keys::P {
        Some('p')
    } else if key == keys::Q {
        Some('q')
    } else if key == keys::R {
        Some('r')
    } else if key == keys::S {
        Some('s')
    } else if key == keys::T {
        Some('t')
    } else if key == keys::U {
        Some('u')
    } else if key == keys::V {
        Some('v')
    } else if key == keys::W {
        Some('w')
    } else if key == keys::X {
        Some('x')
    } else if key == keys::Y {
        Some('y')
    } else if key == keys::Z {
        Some('z')
    } else if key == keys::N0 {
        Some('0')
    } else if key == keys::N1 {
        Some('1')
    } else if key == keys::N2 {
        Some('2')
    } else if key == keys::N3 {
        Some('3')
    } else if key == keys::N4 {
        Some('4')
    } else if key == keys::N5 {
        Some('5')
    } else if key == keys::N6 {
        Some('6')
    } else if key == keys::N7 {
        Some('7')
    } else if key == keys::N8 {
        Some('8')
    } else if key == keys::N9 {
        Some('9')
    } else if key == keys::SPACE {
        Some(' ')
    } else {
        None
    }
}

/// The character a keycode prints as, with the requested case.
pub open spec fn spec_to_char(key: u16, uppercase: bool) -> Option<char> {
    match spec_to_char_lower(key) {
        Some(c) => Some(if uppercase { spec_ascii_upper(c) } else { c }),
        None => None,
    }
}

/// Convert a keycode to the character it prints as.
pub fn to_char(key: u16, uppercase: bool) -> (r: Option<char>)
    ensures
        r == spec_to_char(key, uppercase),
{
    let lower: Option<char> = if key == keys::A {
        Some('a')
    } else if key == keys::B {
        Some('b')
    } else if key == keys::C {
        Some('c')
    } else if key == keys::D {
        Some('d')
    } else if key == keys::E {
        Some('e')
    } else if key == keys::F {
        Some('f')
    } else if key == keys::G {
        Some('g')
    } else if key == keys::H {
        Some('h')
    } else if key == keys::I {
        Some('i')
    } else if key == keys::J {
        Some('j')
    } else if key == keys::K {
        Some('k')
    } else if key == keys::L {
        Some('l')
    } else if key == keys::M {
        Some('m')
    } else if key == keys::N {
        Some('n')
    } else if key == keys::O {
        Some('o')
    } else if key == keys::P {
        Some('p')
    } else if key == keys::Q {
        Some('q')
    } else if key == keys::R {
        Some('r')
    } else if key == keys::S {
        Some('s')
    } else if key == keys::T {
        Some('t')
    } else if key == keys::U {
        Some('u')
    } else if key == keys::V {
        Some('v')
    } else if key == keys::W {
        Some('w')
    } else if key == keys::X {
        Some('x')
    } else if key == keys::Y {
        Some('y')
    } else if key == keys::Z {
        Some('z')
    } else if key == keys::N0 {
        Some('0')
    } else if key == keys::N1 {
        Some('1')
    } else if key == keys::N2 {
        Some('2')
    } else if key == keys::N3 {
        Some('3')
    } else if key == keys::N4 {
        Some('4')
    } else if key == keys::N5 {
        Some('5')
    } else if key == keys::N6 {
        Some('6')
    } else if key == keys::N7 {
        Some('7')
    } else if key == keys::N8 {
        Some('8')
    } else if key == keys::N9 {
        Some('9')
    } else if key == keys::SPACE {
        Some(' ')
    } else {
        None
    };
    match lower {
        Some(c) => Some(if uppercase { ascii_upper(c) } else { c }),
        None => None,
    }
}

} // verus!
