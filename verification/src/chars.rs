//! Vietnamese character data for the character engine.
//!
//! A composed vowel is the triple of a base letter, a vowel modifier and a
//! tone mark; this module converts between the triple and the precomposed
//! Unicode code point, preserving case.

use vstd::prelude::*;
use crate::keycodes::spec_to_char_lower;
use crate::unicode::{
    spec_decompose_lower, spec_lower_char, spec_upper_char, spec_marked, lower_char, upper_char,
    marked,
};
use crate::keys;

verus! {

/// The five Vietnamese tone marks, plus the level (unmarked) tone.
#[derive(Debug, Clone, Copy, PartialEq, Eq, Hash, Structural)]
pub enum ToneMark {
    Level,
    Acute,
    Grave,
    Hook,
    Tilde,
    Dot,
}

/// The vowel shape modifiers.
#[derive(Debug, Clone, Copy, PartialEq, Eq, Hash, Structural)]
pub enum VowelMod {
    Plain,
    Circumflex,
    Horn,
    Breve,
}

/// A composed Vietnamese vowel, decomposed into its coordinates.
#[derive(Debug, Clone, Copy, PartialEq, Eq, Structural)]
pub struct VietChar {
    pub base: char,
    pub modifier: VowelMod,
    pub tone: ToneMark,
}

/// The numeric form a tone mark takes in the composition tables.
pub open spec fn spec_tone_code(t: ToneMark) -> u8 {
    match t {
        ToneMark::Level => 0,
        ToneMark::Acute => 1,
        ToneMark::Grave => 2,
        ToneMark::Hook => 3,
        ToneMark::Tilde => 4,
        ToneMark::Dot => 5,
    }
}

pub fn tone_code(t: ToneMark) -> (r: u8)
    ensures
        r == spec_tone_code(t),
{
    match t {
        ToneMark::Level => 0,
        ToneMark::Acute => 1,
        ToneMark::Grave => 2,
        ToneMark::Hook => 3,
        ToneMark::Tilde => 4,
        ToneMark::Dot => 5,
    }
}

/// The tone mark denoted by a numeric code.
pub open spec fn spec_tone_of_code(m: u8) -> ToneMark {
    if m == 1 {
        ToneMark::Acute
    } else if m == 2 {
        ToneMark::Grave
    } else if m == 3 {
        ToneMark::Hook
    } else if m == 4 {
        ToneMark::Tilde
    } else if m == 5 {
        ToneMark::Dot
    } else {
        ToneMark::Level
    }
}

/// The base vowel letter with a shape modifier applied; `None` on the
/// combinations Vietnamese does not realise (breve only on `a`, circumflex
/// only on `a`/`e`/`o`, horn only on `o`/`u`).
pub open spec fn spec_modified_base(base: char, m: VowelMod) -> Option<char> {
    match base {
        'a' => match m {
            VowelMod::Plain => Some('a'),
            VowelMod::Circumflex => Some('â'),
            VowelMod::Breve => Some('ă'),
            VowelMod::Horn => None,
        },
        'e' => match m {
            VowelMod::Plain => Some('e'),
            VowelMod::Circumflex => Some('ê'),
            _ => None,
        },
        'i' => match m {
            VowelMod::Plain => Some('i'),
            _ => None,
        },
        'o' => match m {
            VowelMod::Plain => Some('o'),
            VowelMod::Circumflex => Some('ô'),
            VowelMod::Horn => Some('ơ'),
            VowelMod::Breve => None,
        },
        'u' => match m {
            VowelMod::Plain => Some('u'),
            VowelMod::Horn => Some('ư'),
            _ => None,
        },
        'y' => match m {
            VowelMod::Plain => Some('y'),
            _ => None,
        },
        _ => None,
    }
}

pub fn modified_base(base: char, m: VowelMod) -> (r: Option<char>)
    ensures
        r == spec_modified_base(base, m),
{
    match base {
        'a' => match m {
            VowelMod::Plain => Some('a'),
            VowelMod::Circumflex => Some('â'),
            VowelMod::Breve => Some('ă'),
            VowelMod::Horn => None,
        },
        'e' => match m {
            VowelMod::Plain => Some('e'),
            VowelMod::Circumflex => Some('ê'),
            _ => None,
        },
        'i' => match m {
            VowelMod::Plain => Some('i'),
            _ => None,
        },
        'o' => match m {
            VowelMod::Plain => Some('o'),
            VowelMod::Circumflex => Some('ô'),
            VowelMod::Horn => Some('ơ'),
            VowelMod::Breve => None,
        },
        'u' => match m {
            VowelMod::Plain => Some('u'),
            VowelMod::Horn => Some('ư'),
            _ => None,
        },
        'y' => match m {
            VowelMod::Plain => Some('y'),
            _ => None,
        },
        _ => None,
    }
}

/// Compose a lowercase base vowel, modifier and tone into the precomposed
/// code point; `None` on unrealised combinations.
pub open spec fn spec_compose(base: char, m: VowelMod, t: ToneMark) -> Option<char> {
    match spec_modified_base(base, m) {
        Some(mb) => Some(spec_marked(mb, spec_tone_code(t))),
        None => None,
    }
}

pub fn compose(base: char, m: VowelMod, t: ToneMark) -> (r: Option<char>)
    ensures
        r == spec_compose(base, m, t),
{
    match modified_base(base, m) {
        Some(mb) => Some(marked(mb, tone_code(t))),
        None => None,
    }
}

/// Decompose a lowercase composed vowel into its coordinates; `None` for
/// anything that is not a Vietnamese vowel letter.
pub open spec fn spec_decomp(c: char) -> Option<VietChar> {
    match spec_decompose_lower(c) {
        Some(comp) => {
            let base = match spec_to_char_lower(comp.key) {
                Some(b) => b,
                None => c,
            };
            let m = if comp.tone_mod == 1 {
                VowelMod::Circumflex
            } else if comp.tone_mod == 2 {
                if comp.key == keys::A {
                    VowelMod::Breve
                } else {
                    VowelMod::Horn
                }
            } else {
                VowelMod::Plain
            };
            Some(VietChar { base, modifier: m, tone: spec_tone_of_code(comp.mark_type) })
        },
        None => None,
    }
}

/// Decompose a lowercase composed vowel into base, modifier and tone.
pub fn decomp(c: char) -> (r: Option<VietChar>)
    ensures
        r == spec_decomp(c),
{
    match crate::unicode::decompose_char(c) {
        Some(comp) => {
            if comp.uppercase || comp.is_stroked || !crate::keycodes::is_vowel(comp.key) {
                proof {
                    lemma_decompose_lower_cases(c);
                }
                None
            } else {
                proof {
                    lemma_decompose_lower_cases(c);
                }
                let base = match crate::keycodes::to_char(comp.key, false) {
                    Some(b) => b,
                    None => c,
                };
                let m = if comp.tone_mod == 1 {
                    VowelMod::Circumflex
                } else if comp.tone_mod == 2 {
                    if comp.key == keys::A {
                        VowelMod::Breve
                    } else {
                        VowelMod::Horn
                    }
                } else {
                    VowelMod::Plain
                };
                let t = if comp.mark_type == 1 {
                    ToneMark::Acute
                } else if comp.mark_type == 2 {
                    ToneMark::Grave
                } else if comp.mark_type == 3 {
                    ToneMark::Hook
                } else if comp.mark_type == 4 {
                    ToneMark::Tilde
                } else if comp.mark_type == 5 {
                    ToneMark::Dot
                } else {
                    ToneMark::Level
                };
                Some(VietChar { base, modifier: m, tone: t })
            }
        },
        None => None,
    }
}

/// On a lowercase vowel, full decomposition agrees with the vowel table;
/// on anything else the vowel table gives nothing.
proof fn lemma_decompose_lower_cases(c: char)
    ensures
        match crate::unicode::spec_decompose_char(c) {
            Some(comp) => (!comp.uppercase && !comp.is_stroked && crate::keycodes::spec_is_vowel(
                comp.key,
            )) ==> spec_decompose_lower(c) == Some(comp),
            None => true,
        },
        crate::unicode::spec_decompose_char(c) is None ==> spec_decompose_lower(c) is None,
        (crate::unicode::spec_decompose_char(c) matches Some(comp) && (comp.uppercase
            || comp.is_stroked || !crate::keycodes::spec_is_vowel(comp.key)))
            ==> spec_decompose_lower(c) is None,
{
}

/// Whether a character is a vowel, in either case, plain or composed.
pub open spec fn spec_is_vowel_char(c: char) -> bool {
    spec_decomp(spec_lower_char(c)) is Some
}

/// Check whether a character is a vowel (either case, plain ASCII or any
/// composed Vietnamese form).
pub fn is_vowel(c: char) -> (r: bool)
    ensures
        r == spec_is_vowel_char(c),
{
    let lower = lower_char(c);
    decomp(lower).is_some()
}

/// Whether a character is a Vietnamese consonant letter, in either case.
pub open spec fn spec_is_consonant_char(c: char) -> bool {
    let l = spec_lower_char(c);
    l == 'b' || l == 'c' || l == 'd' || l == 'đ' || l == 'g' || l == 'h' || l == 'k' || l == 'l'
        || l == 'm' || l == 'n' || l == 'p' || l == 'q' || l == 'r' || l == 's' || l == 't' || l
        == 'v' || l == 'x'
}

/// Check whether a character is a Vietnamese consonant letter.
pub fn is_consonant(c: char) -> (r: bool)
    ensures
        r == spec_is_consonant_char(c),
{
    let l = lower_char(c);
    l == 'b' || l == 'c' || l == 'd' || l == 'đ' || l == 'g' || l == 'h' || l == 'k' || l == 'l'
        || l == 'm' || l == 'n' || l == 'p' || l == 'q' || l == 'r' || l == 's' || l == 't' || l
        == 'v' || l == 'x'
}

/// Whether a character is uppercase in this alphabet.
pub open spec fn spec_is_upper(c: char) -> bool {
    spec_lower_char(c) != c
}

/// The base vowel letter of a composed vowel, case preserved; characters
/// outside the vowel table are unchanged.
pub open spec fn spec_get_base(c: char) -> char {
    match spec_decomp(spec_lower_char(c)) {
        Some(vc) => if spec_is_upper(c) {
            spec_upper_char(vc.base)
        } else {
            vc.base
        },
        None => c,
    }
}

/// The base letter of a composed vowel, case preserved.
pub fn get_base(c: char) -> (r: char)
    ensures
        r == spec_get_base(c),
{
    let lower = lower_char(c);
    match decomp(lower) {
        Some(vc) => if lower != c {
            upper_char(vc.base)
        } else {
            vc.base
        },
        None => c,
    }
}

/// The character with its tone mark swapped, modifier and case preserved;
/// `None` when the character cannot carry a tone.
pub open spec fn spec_with_tone(c: char, t: ToneMark) -> Option<char> {
    let lower = spec_lower_char(c);
    let vc = match spec_decomp(lower) {
        Some(vc) => vc,
        None => VietChar { base: lower, modifier: VowelMod::Plain, tone: ToneMark::Level },
    };
    match spec_compose(vc.base, vc.modifier, t) {
        Some(r) => Some(
            if spec_is_upper(c) {
                spec_upper_char(r)
            } else {
                r
            },
        ),
        None => None,
    }
}

/// Swap the tone mark of a character, preserving modifier and case.
pub fn with_tone(c: char, t: ToneMark) -> (r: Option<char>)
    ensures
        r == spec_with_tone(c, t),
{
    let lower = lower_char(c);
    let vc = match decomp(lower) {
        Some(vc) => vc,
        None => VietChar { base: lower, modifier: VowelMod::Plain, tone: ToneMark::Level },
    };
    match compose(vc.base, vc.modifier, t) {
        Some(res) => Some(
            if lower != c {
                upper_char(res)
            } else {
                res
            },
        ),
        None => None,
    }
}

/// The character with its modifier swapped, tone and case preserved;
/// `None` when the base cannot carry that modifier.
pub open spec fn spec_with_modifier(c: char, m: VowelMod) -> Option<char> {
    let lower = spec_lower_char(c);
    let vc = match spec_decomp(lower) {
        Some(vc) => vc,
        None => VietChar { base: lower, modifier: VowelMod::Plain, tone: ToneMark::Level },
    };
    match spec_compose(vc.base, m, vc.tone) {
        Some(r) => Some(
            if spec_is_upper(c) {
                spec_upper_char(r)
            } else {
                r
            },
        ),
        None => None,
    }
}

/// Swap the vowel modifier of a character, preserving tone and case.
pub fn with_modifier(c: char, m: VowelMod) -> (r: Option<char>)
    ensures
        r == spec_with_modifier(c, m),
{
    let lower = lower_char(c);
    let vc = match decomp(lower) {
        Some(vc) => vc,
        None => VietChar { base: lower, modifier: VowelMod::Plain, tone: ToneMark::Level },
    };
    match compose(vc.base, m, vc.tone) {
        Some(res) => Some(
            if lower != c {
                upper_char(res)
            } else {
                res
            },
        ),
        None => None,
    }
}

/// Composing realised coordinates and decomposing the result round-trips:
/// the table is injective on the realised set.
pub proof fn lemma_compose_decomp(base: char, m: VowelMod, t: ToneMark)
    requires
        spec_compose(base, m, t) is Some,
    ensures
        spec_decomp(spec_compose(base, m, t)->Some_0) == Some(
            VietChar { base, modifier: m, tone: t },
        ),
{
}


/// Removing the tone of a character really leaves it toneless.
#[verifier::rlimit(100)]
pub proof fn lemma_remove_tone_clears(c: char)
    ensures
        crate::transform::spec_get_tone(crate::transform::spec_remove_tone(c).0)
            == ToneMark::Level,
{
    if spec_get_tone_local(c) != ToneMark::Level {
        match spec_decomp(spec_lower_char(c)) {
            Some(vc) => {
                match spec_compose(vc.base, vc.modifier, ToneMark::Level) {
                    Some(r) => {
                        lemma_compose_decomp(vc.base, vc.modifier, ToneMark::Level);
                        assert(spec_lower_char(r) == r);
                        assert(spec_lower_char(spec_upper_char(r)) == r);
                    },
                    None => (),
                }
            },
            None => (),
        }
    }
}

/// The tone of a character, stated locally to keep the proof above in one
/// module.
pub open spec fn spec_get_tone_local(c: char) -> ToneMark {
    match spec_decomp(spec_lower_char(c)) {
        Some(vc) => vc.tone,
        None => ToneMark::Level,
    }
}


/// Every realised composition is a character of the vowel table, in both
/// cases: it decomposes after lowercasing, whether or not it is uppercased
/// first.
#[verifier::rlimit(100)]
pub proof fn lemma_composed_wf(base: char, m: VowelMod, t: ToneMark)
    requires
        spec_compose(base, m, t) is Some,
    ensures
        spec_decomp(spec_lower_char(spec_compose(base, m, t)->Some_0)) is Some,
        spec_decomp(spec_lower_char(spec_upper_char(spec_compose(base, m, t)->Some_0))) is Some,
{
    let c = spec_compose(base, m, t)->Some_0;
    lemma_compose_decomp(base, m, t);
    assert(spec_lower_char(c) == c);
    assert(spec_lower_char(spec_upper_char(c)) == c);
}

/// A character that takes a tone is a vowel of the table afterwards.
pub proof fn lemma_with_tone_wf(c: char, t: ToneMark)
    requires
        spec_with_tone(c, t) is Some,
    ensures
        spec_decomp(spec_lower_char(spec_with_tone(c, t)->Some_0)) is Some,
{
    let lower = spec_lower_char(c);
    let vc = match spec_decomp(lower) {
        Some(vc) => vc,
        None => VietChar { base: lower, modifier: VowelMod::Plain, tone: ToneMark::Level },
    };
    lemma_composed_wf(vc.base, vc.modifier, t);
}

/// A character that takes a modifier is a vowel of the table afterwards.
pub proof fn lemma_with_modifier_wf(c: char, m: VowelMod)
    requires
        spec_with_modifier(c, m) is Some,
    ensures
        spec_decomp(spec_lower_char(spec_with_modifier(c, m)->Some_0)) is Some,
{
    let lower = spec_lower_char(c);
    let vc = match spec_decomp(lower) {
        Some(vc) => vc,
        None => VietChar { base: lower, modifier: VowelMod::Plain, tone: ToneMark::Level },
    };
    lemma_composed_wf(vc.base, m, vc.tone);
}

} // verus!
