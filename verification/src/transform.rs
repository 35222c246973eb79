//! Character transformations for the character engine: tones, modifiers,
//! the `d` stroke, the `ươ` compound, and the character-level tone
//! placement rule.

use vstd::prelude::*;
use crate::chars::{
    ToneMark, VowelMod, spec_with_tone, spec_with_modifier, spec_decomp, spec_get_base,
    spec_is_vowel_char, spec_compose, spec_is_upper, with_tone, with_modifier, decomp, get_base,
    compose,
};
use crate::unicode::{spec_lower_char, spec_upper_char, lower_char, upper_char};

verus! {

/// The outcome of a character-engine transformation.
#[derive(Debug, Clone, Copy, PartialEq, Eq, Structural)]
pub struct TransformResult {
    /// Whether a transformation occurred.
    pub success: bool,
    /// The position of the transformed character.
    pub position: Option<usize>,
    /// How many characters were affected.
    pub chars_affected: usize,
    /// Whether the transformation undid an earlier one.
    pub was_undo: bool,
}

impl TransformResult {
    /// A transformation at `position` touching `chars_affected` characters.
    pub fn success(position: usize, chars_affected: usize) -> (r: Self)
        ensures
            r == (TransformResult {
                success: true,
                position: Some(position),
                chars_affected,
                was_undo: false,
            }),
    {
        TransformResult { success: true, position: Some(position), chars_affected, was_undo: false }
    }

    /// An undo at `position`.
    pub fn undo(position: usize) -> (r: Self)
        ensures
            r == (TransformResult {
                success: true,
                position: Some(position),
                chars_affected: 1,
                was_undo: true,
            }),
    {
        TransformResult { success: true, position: Some(position), chars_affected: 1, was_undo: true }
    }

    /// No transformation took place.
    pub fn none() -> (r: Self)
        ensures
            r == (TransformResult {
                success: false,
                position: None,
                chars_affected: 0,
                was_undo: false,
            }),
    {
        TransformResult { success: false, position: None, chars_affected: 0, was_undo: false }
    }
}

/// Apply a tone mark to a character, preserving modifier and case.
pub fn apply_tone(ch: char, tone: ToneMark) -> (r: Option<char>)
    ensures
        r == spec_with_tone(ch, tone),
{
    with_tone(ch, tone)
}

/// Apply a vowel modifier to a character, preserving tone and case.
pub fn apply_modifier(ch: char, modifier: VowelMod) -> (r: Option<char>)
    ensures
        r == spec_with_modifier(ch, modifier),
{
    with_modifier(ch, modifier)
}

/// A character with every diacritic removed: composed vowels fall back to
/// their base letter, the stroked `d` loses its bar, case is preserved.
pub open spec fn spec_remove_diacritics(ch: char) -> char {
    match spec_decomp(spec_lower_char(ch)) {
        Some(vc) => if spec_is_upper(ch) {
            spec_upper_char(vc.base)
        } else {
            vc.base
        },
        None => if ch == 'đ' {
            'd'
        } else if ch == 'Đ' {
            'D'
        } else {
            ch
        },
    }
}

/// Remove every diacritic from a character.
pub fn remove_diacritics(ch: char) -> (r: char)
    ensures
        r == spec_remove_diacritics(ch),
{
    let lower = lower_char(ch);
    match decomp(lower) {
        Some(vc) => if lower != ch {
            upper_char(vc.base)
        } else {
            vc.base
        },
        None => if ch == 'đ' {
            'd'
        } else if ch == 'Đ' {
            'D'
        } else {
            ch
        },
    }
}

/// The stroke toggle: `d` and `đ` swap, case preserved, anything else is
/// unchanged.
pub open spec fn spec_toggle_stroke(ch: char) -> char {
    match ch {
        'd' => 'đ',
        'D' => 'Đ',
        'đ' => 'd',
        'Đ' => 'D',
        _ => ch,
    }
}

/// Toggle the stroke of a `d`.
pub fn toggle_stroke(ch: char) -> (r: char)
    ensures
        r == spec_toggle_stroke(ch),
{
    match ch {
        'd' => 'đ',
        'D' => 'Đ',
        'đ' => 'd',
        'Đ' => 'D',
        _ => ch,
    }
}

/// The tone mark a character carries.
pub open spec fn spec_get_tone(ch: char) -> ToneMark {
    match spec_decomp(spec_lower_char(ch)) {
        Some(vc) => vc.tone,
        None => ToneMark::Level,
    }
}

/// Read the tone mark of a character.
pub fn get_tone(ch: char) -> (r: ToneMark)
    ensures
        r == spec_get_tone(ch),
{
    match decomp(lower_char(ch)) {
        Some(vc) => vc.tone,
        None => ToneMark::Level,
    }
}

/// The vowel modifier a character carries.
pub open spec fn spec_get_modifier(ch: char) -> VowelMod {
    match spec_decomp(spec_lower_char(ch)) {
        Some(vc) => vc.modifier,
        None => VowelMod::Plain,
    }
}

/// Read the vowel modifier of a character.
pub fn get_modifier(ch: char) -> (r: VowelMod)
    ensures
        r == spec_get_modifier(ch),
{
    match decomp(lower_char(ch)) {
        Some(vc) => vc.modifier,
        None => VowelMod::Plain,
    }
}

/// Whether a character carries a tone mark.
pub fn has_tone(ch: char) -> (r: bool)
    ensures
        r == (spec_get_tone(ch) != ToneMark::Level),
{
    let t = get_tone(ch);
    t != ToneMark::Level
}

/// Whether a character carries a vowel modifier.
pub fn has_modifier(ch: char) -> (r: bool)
    ensures
        r == (spec_get_modifier(ch) != VowelMod::Plain),
{
    let m = get_modifier(ch);
    m != VowelMod::Plain
}

/// Pressing the tone key of a tone the character already carries undoes it.
pub open spec fn spec_should_undo_tone(current: char, pressing: ToneMark) -> bool {
    spec_get_tone(current) == pressing && pressing != ToneMark::Level
}

/// Check whether pressing this tone again should undo it.
pub fn should_undo_tone(current_char: char, pressing_tone: ToneMark) -> (r: bool)
    ensures
        r == spec_should_undo_tone(current_char, pressing_tone),
{
    let t = get_tone(current_char);
    t == pressing_tone && pressing_tone != ToneMark::Level
}

/// Pressing the modifier key of a modifier the character already carries
/// undoes it.
pub open spec fn spec_should_undo_modifier(current: char, pressing: VowelMod) -> bool {
    spec_get_modifier(current) == pressing && pressing != VowelMod::Plain
}

/// Check whether pressing this modifier again should undo it.
pub fn should_undo_modifier(current_char: char, pressing_modifier: VowelMod) -> (r: bool)
    ensures
        r == spec_should_undo_modifier(current_char, pressing_modifier),
{
    let m = get_modifier(current_char);
    m == pressing_modifier && pressing_modifier != VowelMod::Plain
}

/// A character with its tone removed, modifier and case kept, and whether
/// anything changed.
pub open spec fn spec_remove_tone(ch: char) -> (char, bool) {
    if spec_get_tone(ch) == ToneMark::Level {
        (ch, false)
    } else {
        match spec_decomp(spec_lower_char(ch)) {
            Some(vc) => match spec_compose(vc.base, vc.modifier, ToneMark::Level) {
                Some(r) => (
                    if spec_is_upper(ch) {
                        spec_upper_char(r)
                    } else {
                        r
                    },
                    true,
                ),
                None => (ch, false),
            },
            None => (ch, false),
        }
    }
}

/// Remove the tone from a character, keeping its modifier and case.
pub fn remove_tone(ch: char) -> (r: (char, bool))
    ensures
        r == spec_remove_tone(ch),
{
    let lower = lower_char(ch);
    match decomp(lower) {
        Some(vc) => {
            if vc.tone == ToneMark::Level {
                (ch, false)
            } else {
                match compose(vc.base, vc.modifier, ToneMark::Level) {
                    Some(res) => (
                        if lower != ch {
                            upper_char(res)
                        } else {
                            res
                        },
                        true,
                    ),
                    None => (ch, false),
                }
            }
        },
        None => (ch, false),
    }
}

/// A character with its modifier removed, tone and case kept, and whether
/// anything changed.
pub open spec fn spec_remove_modifier(ch: char) -> (char, bool) {
    if spec_get_modifier(ch) == VowelMod::Plain {
        (ch, false)
    } else {
        match spec_decomp(spec_lower_char(ch)) {
            Some(vc) => match spec_compose(vc.base, VowelMod::Plain, vc.tone) {
                Some(r) => (
                    if spec_is_upper(ch) {
                        spec_upper_char(r)
                    } else {
                        r
                    },
                    true,
                ),
                None => (ch, false),
            },
            None => (ch, false),
        }
    }
}

/// Remove the modifier from a character, keeping its tone and case.
pub fn remove_modifier(ch: char) -> (r: (char, bool))
    ensures
        r == spec_remove_modifier(ch),
{
    let lower = lower_char(ch);
    match decomp(lower) {
        Some(vc) => {
            if vc.modifier == VowelMod::Plain {
                (ch, false)
            } else {
                match compose(vc.base, VowelMod::Plain, vc.tone) {
                    Some(res) => (
                        if lower != ch {
                            upper_char(res)
                        } else {
                            res
                        },
                        true,
                    ),
                    None => (ch, false),
                }
            }
        },
        None => (ch, false),
    }
}

/// The indices of the vowels in a character sequence.
pub open spec fn spec_char_vowel_indices(cs: Seq<char>) -> Seq<usize>
    decreases cs.len(),
{
    if cs.len() == 0 {
        Seq::empty()
    } else {
        spec_char_vowel_indices(cs.drop_last()) + if spec_is_vowel_char(cs.last()) {
            seq![(cs.len() - 1) as usize]
        } else {
            Seq::empty()
        }
    }
}

/// Every vowel index is in range and points at a vowel.
pub proof fn lemma_char_vowel_indices_in_range(cs: Seq<char>)
    requires
        cs.len() <= usize::MAX,
    ensures
        forall|i: int|
            0 <= i < spec_char_vowel_indices(cs).len() ==> spec_char_vowel_indices(cs)[i]
                < cs.len() && spec_is_vowel_char(cs[spec_char_vowel_indices(cs)[i] as int]),
    decreases cs.len(),
{
    if cs.len() > 0 {
        let d = cs.drop_last();
        lemma_char_vowel_indices_in_range(d);
        let pd = spec_char_vowel_indices(d);
        let ps = spec_char_vowel_indices(cs);
        assert forall|i: int| 0 <= i < ps.len() implies ps[i] < cs.len() && spec_is_vowel_char(
            cs[ps[i] as int],
        ) by {
            if i < pd.len() {
                assert(ps[i] == pd[i]);
                assert(pd[i] < d.len() && spec_is_vowel_char(d[pd[i] as int]));
                assert(d[pd[i] as int] == cs[pd[i] as int]);
            } else {
                if spec_is_vowel_char(cs.last()) {
                    assert(ps == pd + seq![(cs.len() - 1) as usize]);
                    assert(i == pd.len());
                    assert(ps[i] == seq![(cs.len() - 1) as usize][i - pd.len()]);
                    assert(cs[ps[i] as int] == cs.last());
                } else {
                    assert(ps =~= pd);
                }
            }
        }
    }
}

/// Collect the indices of the vowels in a character slice.
pub fn find_vowel_indices(chars: &[char]) -> (r: Vec<usize>)
    ensures
        r@ == spec_char_vowel_indices(chars@),
{
    let mut r: Vec<usize> = Vec::new();
    let mut i: usize = 0;
    while i < chars.len()
        invariant
            i <= chars@.len(),
            r@ == spec_char_vowel_indices(chars@.take(i as int)),
        decreases chars@.len() - i,
    {
        proof {
            assert(chars@.take(i + 1).drop_last() =~= chars@.take(i as int));
            assert(chars@.take(i + 1).last() == chars@[i as int]);
        }
        if crate::chars::is_vowel(chars[i]) {
            r.push(i);
        }
        i += 1;
    }
    proof {
        assert(chars@.take(chars@.len() as int) =~= chars@);
    }
    r
}

/// The `ươ` compound scan: the first adjacent vowel pair whose bases are
/// `u` then `o` and where one of them already carries the horn takes the
/// tone on its second position.
pub open spec fn spec_uo_tone_scan(cs: Seq<char>, vi: Seq<usize>, i: int) -> Option<usize>
    decreases vi.len() - i,
{
    if i < 0 || i + 1 >= vi.len() {
        None
    } else {
        let first = spec_lower_char(cs[vi[i] as int]);
        let second = spec_lower_char(cs[vi[i + 1] as int]);
        let fb = spec_get_base(first);
        let sb = spec_get_base(second);
        let fm = crate::transform::spec_get_modifier(cs[vi[i] as int]);
        let sm = crate::transform::spec_get_modifier(cs[vi[i + 1] as int]);
        if ((fb == 'u' && fm == VowelMod::Horn) || (sb == 'o' && sm == VowelMod::Horn)) && fb == 'u'
            && sb == 'o' {
            Some(vi[i + 1])
        } else {
            spec_uo_tone_scan(cs, vi, i + 1)
        }
    }
}

/// The first vowel index whose character carries a modifier.
pub open spec fn spec_first_modified(cs: Seq<char>, vi: Seq<usize>, i: int) -> Option<usize>
    decreases vi.len() - i,
{
    if i < 0 || i >= vi.len() {
        None
    } else if spec_get_modifier(cs[vi[i] as int]) != VowelMod::Plain {
        Some(vi[i])
    } else {
        spec_first_modified(cs, vi, i + 1)
    }
}

/// A two-vowel base pair on which the tone goes on the first vowel.
pub open spec fn spec_first_tone_pair(f: char, s: char) -> bool {
    (f == 'i' && s == 'a') || (f == 'i' && s == 'ê') || (f == 'u' && s == 'a') || (f == 'u' && s
        == 'ô') || (f == 'u' && s == 'ơ') || (f == 'ư' && s == 'a') || (f == 'ư' && s == 'ơ')
}

/// A two-vowel base pair whose placement depends on the style: `oa`, `oe`
/// and `uy` take the tone on the second vowel in the modern school and on
/// the first in the traditional one.
pub open spec fn spec_style_tone_pair(f: char, s: char) -> bool {
    (f == 'o' && s == 'a') || (f == 'o' && s == 'e') || (f == 'u' && s == 'y')
}

/// The tone position rule over bare characters: the `ươ` compound wins,
/// then a vowel that already carries a modifier; a single vowel takes the
/// tone itself; over a pair, a final consonant forces the second vowel,
/// `oa`/`oe`/`uy` follow the placement style, the pair table places the
/// rest; three or more vowels put it on the middle one.
pub open spec fn spec_find_tone_position(cs: Seq<char>, vi: Seq<usize>, modern: bool) -> Option<
    usize,
> {
    if vi.len() == 0 {
        None
    } else {
        let compound = if vi.len() >= 2 {
            spec_uo_tone_scan(cs, vi, 0)
        } else {
            None
        };
        match compound {
            Some(p) => Some(p),
            None => match spec_first_modified(cs, vi, 0) {
                Some(p) => Some(p),
                None => if vi.len() == 1 {
                    Some(vi[0])
                } else if vi.len() == 2 {
                    let has_final = cs.len() > vi[1] + 1;
                    let fb = spec_get_base(spec_lower_char(cs[vi[0] as int]));
                    let sb = spec_get_base(spec_lower_char(cs[vi[1] as int]));
                    if has_final {
                        Some(vi[1])
                    } else if spec_style_tone_pair(fb, sb) {
                        if modern {
                            Some(vi[1])
                        } else {
                            Some(vi[0])
                        }
                    } else if spec_first_tone_pair(fb, sb) {
                        Some(vi[0])
                    } else {
                        Some(vi[1])
                    }
                } else {
                    Some(vi[vi.len() as int / 2])
                },
            },
        }
    }
}

fn uo_tone_scan(chars: &[char], vowel_indices: &[usize], start: usize) -> (r: Option<usize>)
    requires
        start <= vowel_indices@.len(),
        forall|j: int| 0 <= j < vowel_indices@.len() ==> vowel_indices@[j] < chars@.len(),
    ensures
        r == spec_uo_tone_scan(chars@, vowel_indices@, start as int),
    decreases vowel_indices@.len() - start,
{
    if start >= vowel_indices.len() || start + 1 >= vowel_indices.len() {
        None
    } else {
        let first = lower_char(chars[vowel_indices[start]]);
        let second = lower_char(chars[vowel_indices[start + 1]]);
        let fb = get_base(first);
        let sb = get_base(second);
        let fm = get_modifier(chars[vowel_indices[start]]);
        let sm = get_modifier(chars[vowel_indices[start + 1]]);
        if ((fb == 'u' && fm == VowelMod::Horn) || (sb == 'o' && sm == VowelMod::Horn)) && fb == 'u'
            && sb == 'o' {
            Some(vowel_indices[start + 1])
        } else {
            uo_tone_scan(chars, vowel_indices, start + 1)
        }
    }
}

fn first_modified(chars: &[char], vowel_indices: &[usize], start: usize) -> (r: Option<usize>)
    requires
        start <= vowel_indices@.len(),
        forall|j: int| 0 <= j < vowel_indices@.len() ==> vowel_indices@[j] < chars@.len(),
    ensures
        r == spec_first_modified(chars@, vowel_indices@, start as int),
    decreases vowel_indices@.len() - start,
{
    if start >= vowel_indices.len() {
        None
    } else {
        let m = get_modifier(chars[vowel_indices[start]]);
        if m != VowelMod::Plain {
            Some(vowel_indices[start])
        } else {
            first_modified(chars, vowel_indices, start + 1)
        }
    }
}

/// Pick the vowel that takes a tone mark, given the characters, their
/// vowel indices, and the placement style.
pub fn find_tone_position(
    chars: &[char],
    vowel_indices: &[usize],
    use_modern_style: bool,
) -> (r: Option<usize>)
    requires
        forall|j: int| 0 <= j < vowel_indices@.len() ==> vowel_indices@[j] < chars@.len(),
    ensures
        r == spec_find_tone_position(chars@, vowel_indices@, use_modern_style),
{
    if vowel_indices.len() == 0 {
        return None;
    }
    if vowel_indices.len() >= 2 {
        match uo_tone_scan(chars, vowel_indices, 0) {
            Some(p) => {
                return Some(p);
            },
            None => (),
        }
    }
    match first_modified(chars, vowel_indices, 0) {
        Some(p) => {
            return Some(p);
        },
        None => (),
    }
    if vowel_indices.len() == 1 {
        Some(vowel_indices[0])
    } else if vowel_indices.len() == 2 {
        let has_final = chars.len() > vowel_indices[1] + 1;
        let fb = get_base(lower_char(chars[vowel_indices[0]]));
        let sb = get_base(lower_char(chars[vowel_indices[1]]));
        if has_final {
            Some(vowel_indices[1])
        } else if (fb == 'o' && sb == 'a') || (fb == 'o' && sb == 'e') || (fb == 'u' && sb
            == 'y') {
            if use_modern_style {
                Some(vowel_indices[1])
            } else {
                Some(vowel_indices[0])
            }
        } else if (fb == 'i' && sb == 'a') || (fb == 'i' && sb == 'ê') || (fb == 'u' && sb == 'a')
            || (fb == 'u' && sb == 'ô') || (fb == 'u' && sb == 'ơ') || (fb == 'ư' && sb == 'a')
            || (fb == 'ư' && sb == 'ơ') {
            Some(vowel_indices[0])
        } else {
            Some(vowel_indices[1])
        }
    } else {
        Some(vowel_indices[vowel_indices.len() / 2])
    }
}

/// The rightmost position whose base letter admits the modifier
/// (circumflex on `a`/`e`/`o`, horn on `o`/`u`, breve on `a`).
pub open spec fn spec_find_modifier_position(cs: Seq<char>, m: VowelMod, i: int) -> Option<usize>
    decreases i + 1,
{
    if i < 0 || i >= cs.len() || m == VowelMod::Plain {
        None
    } else {
        let base = spec_get_base(spec_lower_char(cs[i]));
        let ok = match m {
            VowelMod::Circumflex => base == 'a' || base == 'e' || base == 'o',
            VowelMod::Horn => base == 'o' || base == 'u',
            VowelMod::Breve => base == 'a',
            VowelMod::Plain => false,
        };
        if ok {
            Some(i as usize)
        } else {
            spec_find_modifier_position(cs, m, i - 1)
        }
    }
}

/// Pick the vowel that takes a modifier: the rightmost character whose
/// base letter admits it.
pub fn find_modifier_position(chars: &[char], modifier: VowelMod) -> (r: Option<usize>)
    ensures
        r == spec_find_modifier_position(chars@, modifier, chars@.len() - 1),
        r matches Some(p) ==> p < chars@.len(),
{
    if modifier == VowelMod::Plain {
        proof {
            assert(spec_find_modifier_position(chars@, modifier, chars@.len() - 1) is None);
        }
        return None;
    }
    let mut i: usize = chars.len();
    while i > 0
        invariant
            i <= chars@.len(),
            modifier != VowelMod::Plain,
            spec_find_modifier_position(chars@, modifier, chars@.len() - 1)
                == spec_find_modifier_position(chars@, modifier, i - 1),
        decreases i,
    {
        let base = get_base(lower_char(chars[i - 1]));
        let ok = match modifier {
            VowelMod::Circumflex => base == 'a' || base == 'e' || base == 'o',
            VowelMod::Horn => base == 'o' || base == 'u',
            VowelMod::Breve => base == 'a',
            VowelMod::Plain => false,
        };
        if ok {
            return Some(i - 1);
        }
        i -= 1;
    }
    None
}

/// The buffer characters after the `ươ` compound is applied at `start`:
/// the adjacent `u`/`o` bases both take the horn, existing tones and case
/// are preserved.
pub open spec fn spec_apply_uo_compound(cs: Seq<char>, start: int) -> (Seq<char>, bool) {
    if start < 0 || start + 1 >= cs.len() {
        (cs, false)
    } else {
        let fb = spec_get_base(spec_lower_char(cs[start]));
        let sb = spec_get_base(spec_lower_char(cs[start + 1]));
        if fb == 'u' && sb == 'o' {
            let ft = spec_get_tone(cs[start]);
            let st = spec_get_tone(cs[start + 1]);
            match (spec_compose('u', VowelMod::Horn, ft), spec_compose('o', VowelMod::Horn, st)) {
                (Some(nf), Some(ns)) => {
                    let nf2 = if spec_is_upper(cs[start]) {
                        spec_upper_char(nf)
                    } else {
                        nf
                    };
                    let ns2 = if spec_is_upper(cs[start + 1]) {
                        spec_upper_char(ns)
                    } else {
                        ns
                    };
                    (cs.update(start, nf2).update(start + 1, ns2), true)
                },
                _ => (cs, false),
            }
        } else {
            (cs, false)
        }
    }
}

/// Apply the `ươ` compound at `start_idx`: both vowels of an adjacent
/// `u`,`o` pair take the horn, keeping their tones and case.
pub fn apply_uo_compound(chars: &mut Vec<char>, start_idx: usize) -> (r: TransformResult)
    ensures
        ({
            let (cs2, applied) = spec_apply_uo_compound(old(chars)@, start_idx as int);
            final(chars)@ == cs2 && r.success == applied && (applied ==> r.position
                == Some(start_idx) && r.chars_affected == 2 && !r.was_undo) && (!applied ==> r
                == (TransformResult {
                success: false,
                position: None::<usize>,
                chars_affected: 0,
                was_undo: false,
            }))
        }),
{
    if start_idx >= chars.len() || start_idx + 1 >= chars.len() {
        return TransformResult::none();
    }
    let fb = get_base(lower_char(chars[start_idx]));
    let sb = get_base(lower_char(chars[start_idx + 1]));
    if fb == 'u' && sb == 'o' {
        let ft = get_tone(chars[start_idx]);
        let st = get_tone(chars[start_idx + 1]);
        let nf = compose('u', VowelMod::Horn, ft);
        let ns = compose('o', VowelMod::Horn, st);
        match (nf, ns) {
            (Some(nf), Some(ns)) => {
                let c0 = chars[start_idx];
                let c1 = chars[start_idx + 1];
                let nf2 = if lower_char(c0) != c0 {
                    upper_char(nf)
                } else {
                    nf
                };
                let ns2 = if lower_char(c1) != c1 {
                    upper_char(ns)
                } else {
                    ns
                };
                chars.set(start_idx, nf2);
                chars.set(start_idx + 1, ns2);
                TransformResult::success(start_idx, 2)
            },
            _ => TransformResult::none(),
        }
    } else {
        TransformResult::none()
    }
}


/// Stripping the diacritics of any realised composition recovers the base
/// letter: `strip(compose(b, m, t)) == b`, and likewise case-preserved on
/// the uppercase form.
#[verifier::rlimit(100)]
pub proof fn lemma_strip_composed(base: char, m: VowelMod, t: ToneMark)
    requires
        spec_compose(base, m, t) is Some,
    ensures
        spec_remove_diacritics(spec_compose(base, m, t)->Some_0) == base,
        spec_remove_diacritics(spec_upper_char(spec_compose(base, m, t)->Some_0))
            == spec_upper_char(base),
{
    let c = spec_compose(base, m, t)->Some_0;
    crate::chars::lemma_compose_decomp(base, m, t);
    assert(spec_lower_char(c) == c);
    assert(spec_lower_char(spec_upper_char(c)) == c);
}


/// Removing a vowel's tone leaves a vowel of the table.
pub proof fn lemma_remove_tone_wf(c: char)
    requires
        spec_decomp(spec_lower_char(c)) is Some,
    ensures
        spec_decomp(spec_lower_char(spec_remove_tone(c).0)) is Some,
{
    if spec_get_tone(c) != ToneMark::Level {
        match spec_decomp(spec_lower_char(c)) {
            Some(vc) => {
                if spec_compose(vc.base, vc.modifier, ToneMark::Level) is Some {
                    crate::chars::lemma_composed_wf(vc.base, vc.modifier, ToneMark::Level);
                }
            },
            None => (),
        }
    }
}

/// Removing a vowel's modifier leaves a vowel of the table.
pub proof fn lemma_remove_modifier_wf(c: char)
    requires
        spec_decomp(spec_lower_char(c)) is Some,
    ensures
        spec_decomp(spec_lower_char(spec_remove_modifier(c).0)) is Some,
{
    if spec_get_modifier(c) != VowelMod::Plain {
        match spec_decomp(spec_lower_char(c)) {
            Some(vc) => {
                if spec_compose(vc.base, VowelMod::Plain, vc.tone) is Some {
                    crate::chars::lemma_composed_wf(vc.base, VowelMod::Plain, vc.tone);
                }
            },
            None => (),
        }
    }
}

/// Stripping diacritics leaves a vowel of the table, one of the `d`
/// family, or the character unchanged.
#[verifier::rlimit(100)]
pub proof fn lemma_strip_wf(c: char)
    ensures
        spec_remove_diacritics(c) == c || spec_decomp(spec_lower_char(spec_remove_diacritics(c)))
            is Some || spec_remove_diacritics(c) == 'd' || spec_remove_diacritics(c) == 'D',
{
    match spec_decomp(spec_lower_char(c)) {
        Some(vc) => {
            lemma_composed_wf_base(vc.base);
        },
        None => (),
    }
}

/// Every base letter of the vowel table is itself a table character, in
/// both cases.
#[verifier::rlimit(100)]
proof fn lemma_composed_wf_base(base: char)
    ensures
        (base == 'a' || base == 'e' || base == 'i' || base == 'o' || base == 'u' || base == 'y')
            ==> spec_decomp(spec_lower_char(base)) is Some && spec_decomp(
            spec_lower_char(spec_upper_char(base)),
        ) is Some,
{
}


/// A position the modifier scan picks holds a vowel of the table.
#[verifier::rlimit(100)]
pub proof fn lemma_find_modifier_position_vowel(cs: Seq<char>, m: VowelMod, i: int)
    requires
        cs.len() <= usize::MAX,
    ensures
        match spec_find_modifier_position(cs, m, i) {
            Some(p) => p < cs.len() && spec_decomp(spec_lower_char(cs[p as int])) is Some,
            None => true,
        },
    decreases i + 1,
{
    if !(i < 0 || i >= cs.len() || m == VowelMod::Plain) {
        let base = spec_get_base(spec_lower_char(cs[i]));
        let ok = match m {
            VowelMod::Circumflex => base == 'a' || base == 'e' || base == 'o',
            VowelMod::Horn => base == 'o' || base == 'u',
            VowelMod::Breve => base == 'a',
            VowelMod::Plain => false,
        };
        if ok {
            let l = spec_lower_char(cs[i]);
            assert(spec_lower_char(l) == l);
            if spec_decomp(l) is None {
                // Then the base is the lowercased character itself, which
                // is a plain vowel letter and so is in the table after all.
                assert(base == l);
                assert(spec_decomp(base) is Some);
            }
        } else {
            lemma_find_modifier_position_vowel(cs, m, i - 1);
        }
    }
}

} // verus!
