//! Vietnamese character composition for the keycode engine.
//!
//! A character is described by a keycode, an uppercase flag, a vowel shape
//! modifier (circumflex or horn/breve) and a tone mark.  This module converts
//! between that description and the precomposed Unicode code point, in both
//! directions.  Every result is a single NFC code point; no combining marks
//! are produced.

use vstd::prelude::*;
use crate::keys;
use crate::keycodes::{
    spec_ascii_upper, ascii_upper, spec_ascii_lower, ascii_lower, spec_to_char, to_char,
    spec_is_vowel, spec_from_char_lower,
};
use crate::mark;
use crate::tone;

verus! {

/// Base vowel letter selected by keycode and shape modifier; `None` when
/// the modifier does not apply to the key (the circumflex sits only on
/// `a`/`e`/`o`, the horn only on `o`/`u`, the breve — the horn value on
/// `a` — only there), and on unknown modifier values.
pub open spec fn spec_base_vowel(key: u16, tone_mod: u8) -> Option<char> {
    if tone_mod == tone::NONE {
        if key == keys::A {
            Some('a')
        } else if key == keys::E {
            Some('e')
        } else if key == keys::I {
            Some('i')
        } else if key == keys::O {
            Some('o')
        } else if key == keys::U {
            Some('u')
        } else if key == keys::Y {
            Some('y')
        } else {
            None
        }
    } else if tone_mod == tone::CIRCUMFLEX {
        if key == keys::A {
            Some('â')
        } else if key == keys::E {
            Some('ê')
        } else if key == keys::O {
            Some('ô')
        } else {
            None
        }
    } else if tone_mod == tone::HORN {
        if key == keys::A {
            Some('ă')
        } else if key == keys::O {
            Some('ơ')
        } else if key == keys::U {
            Some('ư')
        } else {
            None
        }
    } else {
        None
    }
}

fn base_vowel(key: u16, tone_mod: u8) -> (r: Option<char>)
    ensures
        r == spec_base_vowel(key, tone_mod),
{
    if tone_mod == tone::NONE {
        if key == keys::A {
            Some('a')
        } else if key == keys::E {
            Some('e')
        } else if key == keys::I {
            Some('i')
        } else if key == keys::O {
            Some('o')
        } else if key == keys::U {
            Some('u')
        } else if key == keys::Y {
            Some('y')
        } else {
            None
        }
    } else if tone_mod == tone::CIRCUMFLEX {
        if key == keys::A {
            Some('â')
        } else if key == keys::E {
            Some('ê')
        } else if key == keys::O {
            Some('ô')
        } else {
            None
        }
    } else if tone_mod == tone::HORN {
        if key == keys::A {
            Some('ă')
        } else if key == keys::O {
            Some('ơ')
        } else if key == keys::U {
            Some('ư')
        } else {
            None
        }
    } else {
        None
    }
}

/// A lowercase base vowel with a tone mark placed on it.  Marks outside the
/// five tones, or a base outside the vowel rows, leave the character alone.
pub open spec fn spec_marked(base: char, mark_type: u8) -> char {
    if mark_type == mark::NONE || mark_type > mark::DOT {
        base
    } else {
        match base {
            'a' => if mark_type == 1 { 'á' } else if mark_type == 2 { 'à' }
                   else if mark_type == 3 { 'ả' } else if mark_type == 4 { 'ã' } else { 'ạ' },
            'ă' => if mark_type == 1 { 'ắ' } else if mark_type == 2 { 'ằ' }
                   else if mark_type == 3 { 'ẳ' } else if mark_type == 4 { 'ẵ' } else { 'ặ' },
            'â' => if mark_type == 1 { 'ấ' } else if mark_type == 2 { 'ầ' }
                   else if mark_type == 3 { 'ẩ' } else if mark_type == 4 { 'ẫ' } else { 'ậ' },
            'e' => if mark_type == 1 { 'é' } else if mark_type == 2 { 'è' }
                   else if mark_type == 3 { 'ẻ' } else if mark_type == 4 { 'ẽ' } else { 'ẹ' },
            'ê' => if mark_type == 1 { 'ế' } else if mark_type == 2 { 'ề' }
                   else if mark_type == 3 { 'ể' } else if mark_type == 4 { 'ễ' } else { 'ệ' },
            'i' => if mark_type == 1 { 'í' } else if mark_type == 2 { 'ì' }
                   else if mark_type == 3 { 'ỉ' } else if mark_type == 4 { 'ĩ' } else { 'ị' },
            'o' => if mark_type == 1 { 'ó' } else if mark_type == 2 { 'ò' }
                   else if mark_type == 3 { 'ỏ' } else if mark_type == 4 { 'õ' } else { 'ọ' },
            'ô' => if mark_type == 1 { 'ố' } else if mark_type == 2 { 'ồ' }
                   else if mark_type == 3 { 'ổ' } else if mark_type == 4 { 'ỗ' } else { 'ộ' },
            'ơ' => if mark_type == 1 { 'ớ' } else if mark_type == 2 { 'ờ' }
                   else if mark_type == 3 { 'ở' } else if mark_type == 4 { 'ỡ' } else { 'ợ' },
            'u' => if mark_type == 1 { 'ú' } else if mark_type == 2 { 'ù' }
                   else if mark_type == 3 { 'ủ' } else if mark_type == 4 { 'ũ' } else { 'ụ' },
            'ư' => if mark_type == 1 { 'ứ' } else if mark_type == 2 { 'ừ' }
                   else if mark_type == 3 { 'ử' } else if mark_type == 4 { 'ữ' } else { 'ự' },
            'y' => if mark_type == 1 { 'ý' } else if mark_type == 2 { 'ỳ' }
                   else if mark_type == 3 { 'ỷ' } else if mark_type == 4 { 'ỹ' } else { 'ỵ' },
            _ => base,
        }
    }
}

pub fn marked(base: char, mark_type: u8) -> (r: char)
    ensures
        r == spec_marked(base, mark_type),
{
    if mark_type == mark::NONE || mark_type > mark::DOT {
        base
    } else {
        match base {
            'a' => if mark_type == 1 { 'á' } else if mark_type == 2 { 'à' }
                   else if mark_type == 3 { 'ả' } else if mark_type == 4 { 'ã' } else { 'ạ' },
            'ă' => if mark_type == 1 { 'ắ' } else if mark_type == 2 { 'ằ' }
                   else if mark_type == 3 { 'ẳ' } else if mark_type == 4 { 'ẵ' } else { 'ặ' },
            'â' => if mark_type == 1 { 'ấ' } else if mark_type == 2 { 'ầ' }
                   else if mark_type == 3 { 'ẩ' } else if mark_type == 4 { 'ẫ' } else { 'ậ' },
            'e' => if mark_type == 1 { 'é' } else if mark_type == 2 { 'è' }
                   else if mark_type == 3 { 'ẻ' } else if mark_type == 4 { 'ẽ' } else { 'ẹ' },
            'ê' => if mark_type == 1 { 'ế' } else if mark_type == 2 { 'ề' }
                   else if mark_type == 3 { 'ể' } else if mark_type == 4 { 'ễ' } else { 'ệ' },
            'i' => if mark_type == 1 { 'í' } else if mark_type == 2 { 'ì' }
                   else if mark_type == 3 { 'ỉ' } else if mark_type == 4 { 'ĩ' } else { 'ị' },
            'o' => if mark_type == 1 { 'ó' } else if mark_type == 2 { 'ò' }
                   else if mark_type == 3 { 'ỏ' } else if mark_type == 4 { 'õ' } else { 'ọ' },
            'ô' => if mark_type == 1 { 'ố' } else if mark_type == 2 { 'ồ' }
                   else if mark_type == 3 { 'ổ' } else if mark_type == 4 { 'ỗ' } else { 'ộ' },
            'ơ' => if mark_type == 1 { 'ớ' } else if mark_type == 2 { 'ờ' }
                   else if mark_type == 3 { 'ở' } else if mark_type == 4 { 'ỡ' } else { 'ợ' },
            'u' => if mark_type == 1 { 'ú' } else if mark_type == 2 { 'ù' }
                   else if mark_type == 3 { 'ủ' } else if mark_type == 4 { 'ũ' } else { 'ụ' },
            'ư' => if mark_type == 1 { 'ứ' } else if mark_type == 2 { 'ừ' }
                   else if mark_type == 3 { 'ử' } else if mark_type == 4 { 'ữ' } else { 'ự' },
            'y' => if mark_type == 1 { 'ý' } else if mark_type == 2 { 'ỳ' }
                   else if mark_type == 3 { 'ỷ' } else if mark_type == 4 { 'ỹ' } else { 'ỵ' },
            _ => base,
        }
    }
}

/// Uppercase form of a character: composed Vietnamese letters map to their
/// precomposed uppercase code point, ASCII letters to `A ..= Z`, anything
/// else is unchanged.
pub open spec fn spec_upper_char(c: char) -> char {
    match c {
        'á' => 'Á', 'à' => 'À', 'ả' => 'Ả', 'ã' => 'Ã', 'ạ' => 'Ạ',
        'ă' => 'Ă', 'ắ' => 'Ắ', 'ằ' => 'Ằ', 'ẳ' => 'Ẳ', 'ẵ' => 'Ẵ', 'ặ' => 'Ặ',
        'â' => 'Â', 'ấ' => 'Ấ', 'ầ' => 'Ầ', 'ẩ' => 'Ẩ', 'ẫ' => 'Ẫ', 'ậ' => 'Ậ',
        'é' => 'É', 'è' => 'È', 'ẻ' => 'Ẻ', 'ẽ' => 'Ẽ', 'ẹ' => 'Ẹ',
        'ê' => 'Ê', 'ế' => 'Ế', 'ề' => 'Ề', 'ể' => 'Ể', 'ễ' => 'Ễ', 'ệ' => 'Ệ',
        'í' => 'Í', 'ì' => 'Ì', 'ỉ' => 'Ỉ', 'ĩ' => 'Ĩ', 'ị' => 'Ị',
        'ó' => 'Ó', 'ò' => 'Ò', 'ỏ' => 'Ỏ', 'õ' => 'Õ', 'ọ' => 'Ọ',
        'ô' => 'Ô', 'ố' => 'Ố', 'ồ' => 'Ồ', 'ổ' => 'Ổ', 'ỗ' => 'Ỗ', 'ộ' => 'Ộ',
        'ơ' => 'Ơ', 'ớ' => 'Ớ', 'ờ' => 'Ờ', 'ở' => 'Ở', 'ỡ' => 'Ỡ', 'ợ' => 'Ợ',
        'ú' => 'Ú', 'ù' => 'Ù', 'ủ' => 'Ủ', 'ũ' => 'Ũ', 'ụ' => 'Ụ',
        'ư' => 'Ư', 'ứ' => 'Ứ', 'ừ' => 'Ừ', 'ử' => 'Ử', 'ữ' => 'Ữ', 'ự' => 'Ự',
        'ý' => 'Ý', 'ỳ' => 'Ỳ', 'ỷ' => 'Ỷ', 'ỹ' => 'Ỹ', 'ỵ' => 'Ỵ',
        'đ' => 'Đ',
        _ => spec_ascii_upper(c),
    }
}

pub fn upper_char(c: char) -> (r: char)
    ensures
        r == spec_upper_char(c),
{
    match c {
        'á' => 'Á', 'à' => 'À', 'ả' => 'Ả', 'ã' => 'Ã', 'ạ' => 'Ạ',
        'ă' => 'Ă', 'ắ' => 'Ắ', 'ằ' => 'Ằ', 'ẳ' => 'Ẳ', 'ẵ' => 'Ẵ', 'ặ' => 'Ặ',
        'â' => 'Â', 'ấ' => 'Ấ', 'ầ' => 'Ầ', 'ẩ' => 'Ẩ', 'ẫ' => 'Ẫ', 'ậ' => 'Ậ',
        'é' => 'É', 'è' => 'È', 'ẻ' => 'Ẻ', 'ẽ' => 'Ẽ', 'ẹ' => 'Ẹ',
        'ê' => 'Ê', 'ế' => 'Ế', 'ề' => 'Ề', 'ể' => 'Ể', 'ễ' => 'Ễ', 'ệ' => 'Ệ',
        'í' => 'Í', 'ì' => 'Ì', 'ỉ' => 'Ỉ', 'ĩ' => 'Ĩ', 'ị' => 'Ị',
        'ó' => 'Ó', 'ò' => 'Ò', 'ỏ' => 'Ỏ', 'õ' => 'Õ', 'ọ' => 'Ọ',
        'ô' => 'Ô', 'ố' => 'Ố', 'ồ' => 'Ồ', 'ổ' => 'Ổ', 'ỗ' => 'Ỗ', 'ộ' => 'Ộ',
        'ơ' => 'Ơ', 'ớ' => 'Ớ', 'ờ' => 'Ờ', 'ở' => 'Ở', 'ỡ' => 'Ỡ', 'ợ' => 'Ợ',
        'ú' => 'Ú', 'ù' => 'Ù', 'ủ' => 'Ủ', 'ũ' => 'Ũ', 'ụ' => 'Ụ',
        'ư' => 'Ư', 'ứ' => 'Ứ', 'ừ' => 'Ừ', 'ử' => 'Ử', 'ữ' => 'Ữ', 'ự' => 'Ự',
        'ý' => 'Ý', 'ỳ' => 'Ỳ', 'ỷ' => 'Ỷ', 'ỹ' => 'Ỹ', 'ỵ' => 'Ỵ',
        'đ' => 'Đ',
        _ => ascii_upper(c),
    }
}

/// Lowercase form of a character: the inverse of [`spec_upper_char`] on
/// Vietnamese and ASCII letters, identity elsewhere.
pub open spec fn spec_lower_char(c: char) -> char {
    match c {
        'Á' => 'á', 'À' => 'à', 'Ả' => 'ả', 'Ã' => 'ã', 'Ạ' => 'ạ',
        'Ă' => 'ă', 'Ắ' => 'ắ', 'Ằ' => 'ằ', 'Ẳ' => 'ẳ', 'Ẵ' => 'ẵ', 'Ặ' => 'ặ',
        'Â' => 'â', 'Ấ' => 'ấ', 'Ầ' => 'ầ', 'Ẩ' => 'ẩ', 'Ẫ' => 'ẫ', 'Ậ' => 'ậ',
        'É' => 'é', 'È' => 'è', 'Ẻ' => 'ẻ', 'Ẽ' => 'ẽ', 'Ẹ' => 'ẹ',
        'Ê' => 'ê', 'Ế' => 'ế', 'Ề' => 'ề', 'Ể' => 'ể', 'Ễ' => 'ễ', 'Ệ' => 'ệ',
        'Í' => 'í', 'Ì' => 'ì', 'Ỉ' => 'ỉ', 'Ĩ' => 'ĩ', 'Ị' => 'ị',
        'Ó' => 'ó', 'Ò' => 'ò', 'Ỏ' => 'ỏ', 'Õ' => 'õ', 'Ọ' => 'ọ',
        'Ô' => 'ô', 'Ố' => 'ố', 'Ồ' => 'ồ', 'Ổ' => 'ổ', 'Ỗ' => 'ỗ', 'Ộ' => 'ộ',
        'Ơ' => 'ơ', 'Ớ' => 'ớ', 'Ờ' => 'ờ', 'Ở' => 'ở', 'Ỡ' => 'ỡ', 'Ợ' => 'ợ',
        'Ú' => 'ú', 'Ù' => 'ù', 'Ủ' => 'ủ', 'Ũ' => 'ũ', 'Ụ' => 'ụ',
        'Ư' => 'ư', 'Ứ' => 'ứ', 'Ừ' => 'ừ', 'Ử' => 'ử', 'Ữ' => 'ữ', 'Ự' => 'ự',
        'Ý' => 'ý', 'Ỳ' => 'ỳ', 'Ỷ' => 'ỷ', 'Ỹ' => 'ỹ', 'Ỵ' => 'ỵ',
        'Đ' => 'đ',
        _ => spec_ascii_lower(c),
    }
}

pub fn lower_char(c: char) -> (r: char)
    ensures
        r == spec_lower_char(c),
{
    match c {
        'Á' => 'á', 'À' => 'à', 'Ả' => 'ả', 'Ã' => 'ã', 'Ạ' => 'ạ',
        'Ă' => 'ă', 'Ắ' => 'ắ', 'Ằ' => 'ằ', 'Ẳ' => 'ẳ', 'Ẵ' => 'ẵ', 'Ặ' => 'ặ',
        'Â' => 'â', 'Ấ' => 'ấ', 'Ầ' => 'ầ', 'Ẩ' => 'ẩ', 'Ẫ' => 'ẫ', 'Ậ' => 'ậ',
        'É' => 'é', 'È' => 'è', 'Ẻ' => 'ẻ', 'Ẽ' => 'ẽ', 'Ẹ' => 'ẹ',
        'Ê' => 'ê', 'Ế' => 'ế', 'Ề' => 'ề', 'Ể' => 'ể', 'Ễ' => 'ễ', 'Ệ' => 'ệ',
        'Í' => 'í', 'Ì' => 'ì', 'Ỉ' => 'ỉ', 'Ĩ' => 'ĩ', 'Ị' => 'ị',
        'Ó' => 'ó', 'Ò' => 'ò', 'Ỏ' => 'ỏ', 'Õ' => 'õ', 'Ọ' => 'ọ',
        'Ô' => 'ô', 'Ố' => 'ố', 'Ồ' => 'ồ', 'Ổ' => 'ổ', 'Ỗ' => 'ỗ', 'Ộ' => 'ộ',
        'Ơ' => 'ơ', 'Ớ' => 'ớ', 'Ờ' => 'ờ', 'Ở' => 'ở', 'Ỡ' => 'ỡ', 'Ợ' => 'ợ',
        'Ú' => 'ú', 'Ù' => 'ù', 'Ủ' => 'ủ', 'Ũ' => 'ũ', 'Ụ' => 'ụ',
        'Ư' => 'ư', 'Ứ' => 'ứ', 'Ừ' => 'ừ', 'Ử' => 'ử', 'Ữ' => 'ữ', 'Ự' => 'ự',
        'Ý' => 'ý', 'Ỳ' => 'ỳ', 'Ỷ' => 'ỷ', 'Ỹ' => 'ỹ', 'Ỵ' => 'ỵ',
        'Đ' => 'đ',
        _ => ascii_lower(c),
    }
}

/// The character a keycode with the given modifiers prints as.  Vowel keys
/// compose the full Vietnamese letter; every other recognised keycode prints
/// its plain character and ignores the modifiers.
pub open spec fn spec_compose_char(key: u16, uppercase: bool, tone_mod: u8, mark_type: u8)
    -> Option<char> {
    if key == keys::D {
        Some(if uppercase { 'D' } else { 'd' })
    } else if spec_is_vowel(key) {
        match spec_base_vowel(key, tone_mod) {
            Some(base) => {
                let m = spec_marked(base, mark_type);
                Some(if uppercase { spec_upper_char(m) } else { m })
            },
            None => None,
        }
    } else {
        spec_to_char(key, uppercase)
    }
}

/// Compose a keycode plus modifiers into a character.
pub fn compose_char(key: u16, uppercase: bool, tone_mod: u8, mark_type: u8) -> (r: Option<char>)
    ensures
        r == spec_compose_char(key, uppercase, tone_mod, mark_type),
{
    if key == keys::D {
        Some(if uppercase { 'D' } else { 'd' })
    } else if crate::keycodes::is_vowel(key) {
        match base_vowel(key, tone_mod) {
            Some(base) => {
                let m = marked(base, mark_type);
                Some(if uppercase { upper_char(m) } else { m })
            },
            None => None,
        }
    } else {
        to_char(key, uppercase)
    }
}

/// The stroked letter: `đ`, or `Đ` when uppercase.
pub open spec fn spec_stroke_d(uppercase: bool) -> char {
    if uppercase { 'Đ' } else { 'đ' }
}

pub fn get_stroke_d(uppercase: bool) -> (r: char)
    ensures
        r == spec_stroke_d(uppercase),
{
    if uppercase { 'Đ' } else { 'đ' }
}

/// The decomposition of a character: keycode, case, shape modifier, tone
/// mark and stroke flag.
#[derive(Clone, Copy, Debug, PartialEq, Eq, Structural)]
pub struct CharComponents {
    pub key: u16,
    pub uppercase: bool,
    pub tone_mod: u8,
    pub mark_type: u8,
    pub is_stroked: bool,
}

impl CharComponents {
    /// Components of an unstroked character.
    pub fn new(key: u16, uppercase: bool, tone_mod: u8, mark_type: u8) -> (r: Self)
        ensures
            r == (CharComponents { key, uppercase, tone_mod, mark_type, is_stroked: false }),
    {
        CharComponents { key, uppercase, tone_mod, mark_type, is_stroked: false }
    }

    /// Components of a stroked `đ`/`Đ`.
    pub fn stroked(key: u16, uppercase: bool) -> (r: Self)
        ensures
            r == (CharComponents { key, uppercase, tone_mod: 0, mark_type: 0, is_stroked: true }),
    {
        CharComponents { key, uppercase, tone_mod: 0, mark_type: 0, is_stroked: true }
    }
}

pub open spec fn spec_components(
    key: u16,
    uppercase: bool,
    tone_mod: u8,
    mark_type: u8,
) -> CharComponents {
    CharComponents { key, uppercase, tone_mod, mark_type, is_stroked: false }
}

/// Decomposition of a lowercase vowel letter into shape modifier and mark,
/// paired with its vowel keycode.
pub open spec fn spec_decompose_lower(c: char) -> Option<CharComponents> {
    match c {
        'a' => Some(spec_components(keys::A, false, 0, 0)),
        'á' => Some(spec_components(keys::A, false, 0, 1)),
        'à' => Some(spec_components(keys::A, false, 0, 2)),
        'ả' => Some(spec_components(keys::A, false, 0, 3)),
        'ã' => Some(spec_components(keys::A, false, 0, 4)),
        'ạ' => Some(spec_components(keys::A, false, 0, 5)),
        'ă' => Some(spec_components(keys::A, false, 2, 0)),
        'ắ' => Some(spec_components(keys::A, false, 2, 1)),
        'ằ' => Some(spec_components(keys::A, false, 2, 2)),
        'ẳ' => Some(spec_components(keys::A, false, 2, 3)),
        'ẵ' => Some(spec_components(keys::A, false, 2, 4)),
        'ặ' => Some(spec_components(keys::A, false, 2, 5)),
        'â' => Some(spec_components(keys::A, false, 1, 0)),
        'ấ' => Some(spec_components(keys::A, false, 1, 1)),
        'ầ' => Some(spec_components(keys::A, false, 1, 2)),
        'ẩ' => Some(spec_components(keys::A, false, 1, 3)),
        'ẫ' => Some(spec_components(keys::A, false, 1, 4)),
        'ậ' => Some(spec_components(keys::A, false, 1, 5)),
        'e' => Some(spec_components(keys::E, false, 0, 0)),
        'é' => Some(spec_components(keys::E, false, 0, 1)),
        'è' => Some(spec_components(keys::E, false, 0, 2)),
        'ẻ' => Some(spec_components(keys::E, false, 0, 3)),
        'ẽ' => Some(spec_components(keys::E, false, 0, 4)),
        'ẹ' => Some(spec_components(keys::E, false, 0, 5)),
        'ê' => Some(spec_components(keys::E, false, 1, 0)),
        'ế' => Some(spec_components(keys::E, false, 1, 1)),
        'ề' => Some(spec_components(keys::E, false, 1, 2)),
        'ể' => Some(spec_components(keys::E, false, 1, 3)),
        'ễ' => Some(spec_components(keys::E, false, 1, 4)),
        'ệ' => Some(spec_components(keys::E, false, 1, 5)),
        'i' => Some(spec_components(keys::I, false, 0, 0)),
        'í' => Some(spec_components(keys::I, false, 0, 1)),
        'ì' => Some(spec_components(keys::I, false, 0, 2)),
        'ỉ' => Some(spec_components(keys::I, false, 0, 3)),
        'ĩ' => Some(spec_components(keys::I, false, 0, 4)),
        'ị' => Some(spec_components(keys::I, false, 0, 5)),
        'o' => Some(spec_components(keys::O, false, 0, 0)),
        'ó' => Some(spec_components(keys::O, false, 0, 1)),
        'ò' => Some(spec_components(keys::O, false, 0, 2)),
        'ỏ' => Some(spec_components(keys::O, false, 0, 3)),
        'õ' => Some(spec_components(keys::O, false, 0, 4)),
        'ọ' => Some(spec_components(keys::O, false, 0, 5)),
        'ô' => Some(spec_components(keys::O, false, 1, 0)),
        'ố' => Some(spec_components(keys::O, false, 1, 1)),
        'ồ' => Some(spec_components(keys::O, false, 1, 2)),
        'ổ' => Some(spec_components(keys::O, false, 1, 3)),
        'ỗ' => Some(spec_components(keys::O, false, 1, 4)),
        'ộ' => Some(spec_components(keys::O, false, 1, 5)),
        'ơ' => Some(spec_components(keys::O, false, 2, 0)),
        'ớ' => Some(spec_components(keys::O, false, 2, 1)),
        'ờ' => Some(spec_components(keys::O, false, 2, 2)),
        'ở' => Some(spec_components(keys::O, false, 2, 3)),
        'ỡ' => Some(spec_components(keys::O, false, 2, 4)),
        'ợ' => Some(spec_components(keys::O, false, 2, 5)),
        'u' => Some(spec_components(keys::U, false, 0, 0)),
        'ú' => Some(spec_components(keys::U, false, 0, 1)),
        'ù' => Some(spec_components(keys::U, false, 0, 2)),
        'ủ' => Some(spec_components(keys::U, false, 0, 3)),
        'ũ' => Some(spec_components(keys::U, false, 0, 4)),
        'ụ' => Some(spec_components(keys::U, false, 0, 5)),
        'ư' => Some(spec_components(keys::U, false, 2, 0)),
        'ứ' => Some(spec_components(keys::U, false, 2, 1)),
        'ừ' => Some(spec_components(keys::U, false, 2, 2)),
        'ử' => Some(spec_components(keys::U, false, 2, 3)),
        'ữ' => Some(spec_components(keys::U, false, 2, 4)),
        'ự' => Some(spec_components(keys::U, false, 2, 5)),
        'y' => Some(spec_components(keys::Y, false, 0, 0)),
        'ý' => Some(spec_components(keys::Y, false, 0, 1)),
        'ỳ' => Some(spec_components(keys::Y, false, 0, 2)),
        'ỷ' => Some(spec_components(keys::Y, false, 0, 3)),
        'ỹ' => Some(spec_components(keys::Y, false, 0, 4)),
        'ỵ' => Some(spec_components(keys::Y, false, 0, 5)),
        _ => None,
    }
}

/// Decomposition of an arbitrary character: vowel letters in both cases,
/// `d`/`đ` in both cases, and plain ASCII letters.  Anything else has no
/// decomposition.
pub open spec fn spec_decompose_char(c: char) -> Option<CharComponents> {
    if c == 'đ' {
        Some(CharComponents { key: keys::D, uppercase: false, tone_mod: 0, mark_type: 0, is_stroked: true })
    } else if c == 'Đ' {
        Some(CharComponents { key: keys::D, uppercase: true, tone_mod: 0, mark_type: 0, is_stroked: true })
    } else {
        let lower = spec_lower_char(c);
        let upper = c != lower;
        match spec_decompose_lower(lower) {
            Some(comp) => Some(CharComponents { uppercase: upper, ..comp }),
            None => {
                if 'a' <= lower <= 'z' {
                    match spec_from_char_lower(lower) {
                        Some(k) => Some(spec_components(k, upper, 0, 0)),
                        None => None,
                    }
                } else {
                    None
                }
            },
        }
    }
}

/// Decompose a character into keycode, case, shape modifier, tone mark and
/// stroke flag.
pub fn decompose_char(c: char) -> (r: Option<CharComponents>)
    ensures
        r == spec_decompose_char(c),
{
    if c == 'đ' {
        Some(CharComponents::stroked(keys::D, false))
    } else if c == 'Đ' {
        Some(CharComponents::stroked(keys::D, true))
    } else {
        let lower = lower_char(c);
        let upper = c != lower;
        let low = match lower {
            'a' => Some(CharComponents::new(keys::A, false, 0, 0)),
            'á' => Some(CharComponents::new(keys::A, false, 0, 1)),
            'à' => Some(CharComponents::new(keys::A, false, 0, 2)),
            'ả' => Some(CharComponents::new(keys::A, false, 0, 3)),
            'ã' => Some(CharComponents::new(keys::A, false, 0, 4)),
            'ạ' => Some(CharComponents::new(keys::A, false, 0, 5)),
            'ă' => Some(CharComponents::new(keys::A, false, 2, 0)),
            'ắ' => Some(CharComponents::new(keys::A, false, 2, 1)),
            'ằ' => Some(CharComponents::new(keys::A, false, 2, 2)),
            'ẳ' => Some(CharComponents::new(keys::A, false, 2, 3)),
            'ẵ' => Some(CharComponents::new(keys::A, false, 2, 4)),
            'ặ' => Some(CharComponents::new(keys::A, false, 2, 5)),
            'â' => Some(CharComponents::new(keys::A, false, 1, 0)),
            'ấ' => Some(CharComponents::new(keys::A, false, 1, 1)),
            'ầ' => Some(CharComponents::new(keys::A, false, 1, 2)),
            'ẩ' => Some(CharComponents::new(keys::A, false, 1, 3)),
            'ẫ' => Some(CharComponents::new(keys::A, false, 1, 4)),
            'ậ' => Some(CharComponents::new(keys::A, false, 1, 5)),
            'e' => Some(CharComponents::new(keys::E, false, 0, 0)),
            'é' => Some(CharComponents::new(keys::E, false, 0, 1)),
            'è' => Some(CharComponents::new(keys::E, false, 0, 2)),
            'ẻ' => Some(CharComponents::new(keys::E, false, 0, 3)),
            'ẽ' => Some(CharComponents::new(keys::E, false, 0, 4)),
            'ẹ' => Some(CharComponents::new(keys::E, false, 0, 5)),
            'ê' => Some(CharComponents::new(keys::E, false, 1, 0)),
            'ế' => Some(CharComponents::new(keys::E, false, 1, 1)),
            'ề' => Some(CharComponents::new(keys::E, false, 1, 2)),
            'ể' => Some(CharComponents::new(keys::E, false, 1, 3)),
            'ễ' => Some(CharComponents::new(keys::E, false, 1, 4)),
            'ệ' => Some(CharComponents::new(keys::E, false, 1, 5)),
            'i' => Some(CharComponents::new(keys::I, false, 0, 0)),
            'í' => Some(CharComponents::new(keys::I, false, 0, 1)),
            'ì' => Some(CharComponents::new(keys::I, false, 0, 2)),
            'ỉ' => Some(CharComponents::new(keys::I, false, 0, 3)),
            'ĩ' => Some(CharComponents::new(keys::I, false, 0, 4)),
            'ị' => Some(CharComponents::new(keys::I, false, 0, 5)),
            'o' => Some(CharComponents::new(keys::O, false, 0, 0)),
            'ó' => Some(CharComponents::new(keys::O, false, 0, 1)),
            'ò' => Some(CharComponents::new(keys::O, false, 0, 2)),
            'ỏ' => Some(CharComponents::new(keys::O, false, 0, 3)),
            'õ' => Some(CharComponents::new(keys::O, false, 0, 4)),
            'ọ' => Some(CharComponents::new(keys::O, false, 0, 5)),
            'ô' => Some(CharComponents::new(keys::O, false, 1, 0)),
            'ố' => Some(CharComponents::new(keys::O, false, 1, 1)),
            'ồ' => Some(CharComponents::new(keys::O, false, 1, 2)),
            'ổ' => Some(CharComponents::new(keys::O, false, 1, 3)),
            'ỗ' => Some(CharComponents::new(keys::O, false, 1, 4)),
            'ộ' => Some(CharComponents::new(keys::O, false, 1, 5)),
            'ơ' => Some(CharComponents::new(keys::O, false, 2, 0)),
            'ớ' => Some(CharComponents::new(keys::O, false, 2, 1)),
            'ờ' => Some(CharComponents::new(keys::O, false, 2, 2)),
            'ở' => Some(CharComponents::new(keys::O, false, 2, 3)),
            'ỡ' => Some(CharComponents::new(keys::O, false, 2, 4)),
            'ợ' => Some(CharComponents::new(keys::O, false, 2, 5)),
            'u' => Some(CharComponents::new(keys::U, false, 0, 0)),
            'ú' => Some(CharComponents::new(keys::U, false, 0, 1)),
            'ù' => Some(CharComponents::new(keys::U, false, 0, 2)),
            'ủ' => Some(CharComponents::new(keys::U, false, 0, 3)),
            'ũ' => Some(CharComponents::new(keys::U, false, 0, 4)),
            'ụ' => Some(CharComponents::new(keys::U, false, 0, 5)),
            'ư' => Some(CharComponents::new(keys::U, false, 2, 0)),
            'ứ' => Some(CharComponents::new(keys::U, false, 2, 1)),
            'ừ' => Some(CharComponents::new(keys::U, false, 2, 2)),
            'ử' => Some(CharComponents::new(keys::U, false, 2, 3)),
            'ữ' => Some(CharComponents::new(keys::U, false, 2, 4)),
            'ự' => Some(CharComponents::new(keys::U, false, 2, 5)),
            'y' => Some(CharComponents::new(keys::Y, false, 0, 0)),
            'ý' => Some(CharComponents::new(keys::Y, false, 0, 1)),
            'ỳ' => Some(CharComponents::new(keys::Y, false, 0, 2)),
            'ỷ' => Some(CharComponents::new(keys::Y, false, 0, 3)),
            'ỹ' => Some(CharComponents::new(keys::Y, false, 0, 4)),
            'ỵ' => Some(CharComponents::new(keys::Y, false, 0, 5)),
            _ => None,
        };
        match low {
            Some(comp) => Some(
                CharComponents {
                    key: comp.key,
                    uppercase: upper,
                    tone_mod: comp.tone_mod,
                    mark_type: comp.mark_type,
                    is_stroked: false,
                },
            ),
            None => {
                if 'a' <= lower && lower <= 'z' {
                    match crate::keycodes::from_char(lower) {
                        Some(k) => Some(CharComponents::new(k, upper, 0, 0)),
                        None => None,
                    }
                } else {
                    None
                }
            },
        }
    }
}


/// Composing a realised vowel description and decomposing the result
/// round-trips: every composed character remembers exactly its keycode,
/// case, shape modifier and tone mark.
pub proof fn lemma_compose_decompose(key: u16, uppercase: bool, tone_mod: u8, mark_type: u8)
    requires
        spec_is_vowel(key),
        mark_type <= 5,
        tone_mod == 0 || (tone_mod == 1 && (key == keys::A || key == keys::E || key == keys::O))
            || (tone_mod == 2 && (key == keys::A || key == keys::O || key == keys::U)),
    ensures
        spec_compose_char(key, uppercase, tone_mod, mark_type) is Some,
        spec_decompose_char(spec_compose_char(key, uppercase, tone_mod, mark_type)->Some_0)
            == Some(CharComponents { key, uppercase, tone_mod, mark_type, is_stroked: false }),
{
}

} // verus!
