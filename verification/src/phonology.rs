//! Tone-mark placement rules for the keycode engine.
//!
//! Given the vowels of a syllable, the presence of a final consonant, the
//! `qu-`/`gi-` initials and the placement style, these rules pick the vowel
//! that carries the tone mark, and the vowel or vowels that receive the horn
//! modifier.

use vstd::prelude::*;
use crate::keys;

verus! {

/// Which vowel of a cluster carries the tone.
#[derive(Clone, Copy, Debug, PartialEq, Eq, Structural)]
pub enum TonePosition {
    First,
    Second,
    Last,
}

/// How the horn modifier distributes over a vowel pair.
#[derive(Clone, Copy, Debug, PartialEq, Eq, Structural)]
pub enum HornPlacement {
    /// Both vowels take the horn (the `ươ` compound).
    Both,
    /// Only the first vowel takes it.
    First,
    /// Only the second vowel takes it.
    Second,
}

/// One vowel of the syllable: its keycode, its buffer position, and whether
/// it already carries a shape modifier.
#[derive(Clone, Copy, Debug, PartialEq, Eq, Structural)]
pub struct VowelInfo {
    pub key: u16,
    pub pos: usize,
    pub has_tone_mod: bool,
}

/// A vowel pair on which the tone sits on the first vowel.
pub open spec fn spec_tone_first_pair(a: u16, b: u16) -> bool {
    (a == keys::A && (b == keys::I || b == keys::O || b == keys::U || b == keys::Y)) || (a
        == keys::E && b == keys::O) || (a == keys::I && (b == keys::A || b == keys::U)) || (a
        == keys::O && b == keys::I) || (a == keys::U && (b == keys::I || b == keys::A || b
        == keys::U))
}

/// A vowel pair on which the tone sits on the second vowel.
pub open spec fn spec_tone_second_pair(a: u16, b: u16) -> bool {
    (a == keys::O && (b == keys::A || b == keys::E)) || (a == keys::U && (b == keys::E || b
        == keys::Y || b == keys::O)) || (a == keys::I && b == keys::E)
}

/// A pair whose placement depends on the modern/traditional style:
/// `oa`, `oe` and `uy`.
pub open spec fn spec_style_pair(a: u16, b: u16) -> bool {
    (a == keys::O && (b == keys::A || b == keys::E)) || (a == keys::U && b == keys::Y)
}

/// The position of the first vowel already carrying a shape modifier.
pub open spec fn spec_first_mod(vowels: Seq<VowelInfo>) -> Option<usize>
    decreases vowels.len(),
{
    if vowels.len() == 0 {
        None
    } else if vowels[0].has_tone_mod {
        Some(vowels[0].pos)
    } else {
        spec_first_mod(vowels.skip(1))
    }
}

/// Tone placement over a vowel cluster, after any initial-internal vowel has
/// been dropped.
pub open spec fn spec_mark_position_impl(
    vowels: Seq<VowelInfo>,
    has_final: bool,
    has_qu: bool,
    has_gi: bool,
    modern: bool,
) -> usize {
    if vowels.len() == 0 {
        0
    } else if vowels.len() == 1 {
        vowels[0].pos
    } else if vowels.len() == 2 {
        let v1 = vowels[0];
        let v2 = vowels[1];
        if has_final {
            v2.pos
        } else if v1.has_tone_mod && !v2.has_tone_mod {
            v1.pos
        } else if v2.has_tone_mod {
            v2.pos
        } else if v1.key == keys::I && v2.key == keys::A {
            if has_gi {
                v2.pos
            } else {
                v1.pos
            }
        } else if v1.key == keys::U && v2.key == keys::A {
            if has_qu {
                v2.pos
            } else {
                v1.pos
            }
        } else if v1.key == keys::U && v2.key == keys::Y && has_qu {
            v2.pos
        } else if spec_tone_second_pair(v1.key, v2.key) {
            if spec_style_pair(v1.key, v2.key) {
                if modern {
                    v2.pos
                } else {
                    v1.pos
                }
            } else {
                v2.pos
            }
        } else if spec_tone_first_pair(v1.key, v2.key) {
            v1.pos
        } else {
            v2.pos
        }
    } else if vowels.len() == 3 {
        let v1 = vowels[0];
        let v2 = vowels[1];
        let v3 = vowels[2];
        if v1.key == keys::U && v2.key == keys::Y && v3.key == keys::E {
            v3.pos
        } else if v1.has_tone_mod {
            v1.pos
        } else if v2.has_tone_mod {
            v2.pos
        } else if v3.has_tone_mod {
            v3.pos
        } else {
            v2.pos
        }
    } else {
        let mid = vowels.len() as int / 2;
        if vowels[mid].has_tone_mod {
            vowels[mid].pos
        } else {
            match spec_first_mod(vowels) {
                Some(p) => p,
                None => vowels[mid].pos,
            }
        }
    }
}

/// Tone placement over a vowel cluster: an initial `gi-` absorbs a leading
/// `i`, an initial `qu-` absorbs a leading `u`, and the cluster rules above
/// apply to what remains.
pub open spec fn spec_mark_position(
    vowels: Seq<VowelInfo>,
    has_final: bool,
    has_qu: bool,
    has_gi: bool,
    modern: bool,
) -> usize {
    if has_gi && vowels.len() >= 2 && vowels[0].key == keys::I {
        spec_mark_position_impl(vowels.skip(1), has_final, false, false, modern)
    } else if has_qu && vowels.len() >= 2 && vowels[0].key == keys::U {
        spec_mark_position_impl(vowels.skip(1), has_final, false, false, modern)
    } else {
        spec_mark_position_impl(vowels, has_final, has_qu, has_gi, modern)
    }
}

fn first_mod_from(vowels: &[VowelInfo], start: usize) -> (r: Option<usize>)
    requires
        start <= vowels@.len(),
    ensures
        r == spec_first_mod(vowels@.skip(start as int)),
    decreases vowels@.len() - start,
{
    if start == vowels.len() {
        None
    } else if vowels[start].has_tone_mod {
        Some(vowels[start].pos)
    } else {
        proof {
            assert(vowels@.skip(start as int).skip(1) =~= vowels@.skip(start + 1));
        }
        first_mod_from(vowels, start + 1)
    }
}

fn mark_position_from(
    vowels: &[VowelInfo],
    start: usize,
    has_final: bool,
    has_qu: bool,
    has_gi: bool,
    modern: bool,
) -> (r: usize)
    requires
        start <= vowels@.len(),
    ensures
        r == spec_mark_position_impl(vowels@.skip(start as int), has_final, has_qu, has_gi, modern),
{
    let n = vowels.len() - start;
    if n == 0 {
        0
    } else if n == 1 {
        vowels[start].pos
    } else if n == 2 {
        let v1 = vowels[start];
        let v2 = vowels[start + 1];
        if has_final {
            v2.pos
        } else if v1.has_tone_mod && !v2.has_tone_mod {
            v1.pos
        } else if v2.has_tone_mod {
            v2.pos
        } else if v1.key == keys::I && v2.key == keys::A {
            if has_gi {
                v2.pos
            } else {
                v1.pos
            }
        } else if v1.key == keys::U && v2.key == keys::A {
            if has_qu {
                v2.pos
            } else {
                v1.pos
            }
        } else if v1.key == keys::U && v2.key == keys::Y && has_qu {
            v2.pos
        } else if (v1.key == keys::O && (v2.key == keys::A || v2.key == keys::E)) || (v1.key
            == keys::U && (v2.key == keys::E || v2.key == keys::Y || v2.key == keys::O)) || (v1.key
            == keys::I && v2.key == keys::E) {
            if (v1.key == keys::O && (v2.key == keys::A || v2.key == keys::E)) || (v1.key == keys::U
                && v2.key == keys::Y) {
                if modern {
                    v2.pos
                } else {
                    v1.pos
                }
            } else {
                v2.pos
            }
        } else if (v1.key == keys::A && (v2.key == keys::I || v2.key == keys::O || v2.key == keys::U
            || v2.key == keys::Y)) || (v1.key == keys::E && v2.key == keys::O) || (v1.key == keys::I
            && (v2.key == keys::A || v2.key == keys::U)) || (v1.key == keys::O && v2.key == keys::I)
            || (v1.key == keys::U && (v2.key == keys::I || v2.key == keys::A || v2.key
            == keys::U)) {
            v1.pos
        } else {
            v2.pos
        }
    } else if n == 3 {
        let v1 = vowels[start];
        let v2 = vowels[start + 1];
        let v3 = vowels[start + 2];
        if v1.key == keys::U && v2.key == keys::Y && v3.key == keys::E {
            v3.pos
        } else if v1.has_tone_mod {
            v1.pos
        } else if v2.has_tone_mod {
            v2.pos
        } else if v3.has_tone_mod {
            v3.pos
        } else {
            v2.pos
        }
    } else {
        let mid = start + n / 2;
        proof {
            assert(vowels@.skip(start as int)[n as int / 2] == vowels@[mid as int]);
        }
        if vowels[mid].has_tone_mod {
            vowels[mid].pos
        } else {
            match first_mod_from(vowels, start) {
                Some(p) => p,
                None => vowels[mid].pos,
            }
        }
    }
}

/// Pick the vowel that carries the tone mark.
///
/// A leading `i` of a `gi-` initial, or a leading `u` of a `qu-` initial, is
/// part of the onset and is dropped from consideration.  For two vowels: a
/// final consonant forces the second vowel; otherwise a vowel that already
/// carries a shape modifier wins; otherwise the pair tables decide, with
/// `oa`, `oe` and `uy` placed on the second vowel in the modern style and on
/// the first in the traditional style.  For three vowels `uyê` takes the
/// mark on the last vowel, otherwise a modified vowel wins and the middle
/// vowel is the default.
pub fn find_mark_position(
    vowels: &[VowelInfo],
    has_final_consonant: bool,
    has_qu_initial: bool,
    has_gi_initial: bool,
    use_modern_style: bool,
) -> (r: usize)
    ensures
        r == spec_mark_position(
            vowels@,
            has_final_consonant,
            has_qu_initial,
            has_gi_initial,
            use_modern_style,
        ),
{
    proof {
        assert(vowels@.skip(0) =~= vowels@);
    }
    if has_gi_initial && vowels.len() >= 2 && vowels[0].key == keys::I {
        mark_position_from(vowels, 1, has_final_consonant, false, false, use_modern_style)
    } else if has_qu_initial && vowels.len() >= 2 && vowels[0].key == keys::U {
        mark_position_from(vowels, 1, has_final_consonant, false, false, use_modern_style)
    } else {
        mark_position_from(vowels, 0, has_final_consonant, has_qu_initial, has_gi_initial, use_modern_style)
    }
}

/// The first adjacent vowel pair, scanning from `i`, that determines horn
/// placement: `uo`/`ou` put the horn on both, `uu` on the first, `oa` (a
/// breve target) on the second.
pub open spec fn spec_horn_pair_scan(vkeys: Seq<u16>, vpos: Seq<usize>, i: int) -> Option<
    Seq<usize>,
>
    decreases vkeys.len() - i,
{
    if i < 0 || i + 1 >= vkeys.len() || vkeys.len() != vpos.len() {
        None
    } else if vpos[i + 1] == vpos[i] + 1 {
        let k1 = vkeys[i];
        let k2 = vkeys[i + 1];
        if (k1 == keys::U && k2 == keys::O) || (k1 == keys::O && k2 == keys::U) {
            Some(seq![vpos[i], vpos[i + 1]])
        } else if k1 == keys::U && k2 == keys::U {
            Some(seq![vpos[i]])
        } else if k1 == keys::O && k2 == keys::A {
            Some(seq![vpos[i + 1]])
        } else {
            spec_horn_pair_scan(vkeys, vpos, i + 1)
        }
    } else {
        spec_horn_pair_scan(vkeys, vpos, i + 1)
    }
}

/// The last vowel, at or below index `i`, whose key is `u` or `o`.
pub open spec fn spec_last_uo(vkeys: Seq<u16>, vpos: Seq<usize>, i: int) -> Option<usize>
    decreases i + 1,
{
    if i < 0 || vkeys.len() != vpos.len() || i >= vkeys.len() {
        None
    } else if vkeys[i] == keys::U || vkeys[i] == keys::O {
        Some(vpos[i])
    } else {
        spec_last_uo(vkeys, vpos, i - 1)
    }
}

/// The horn targets of a vowel cluster.
pub open spec fn spec_horn_positions(vkeys: Seq<u16>, vpos: Seq<usize>) -> Seq<usize> {
    if vpos.len() == 0 || vkeys.len() != vpos.len() {
        Seq::empty()
    } else {
        match spec_horn_pair_scan(vkeys, vpos, 0) {
            Some(s) => s,
            None => match spec_last_uo(vkeys, vpos, vkeys.len() - 1) {
                Some(p) => seq![p],
                None => if vkeys.last() == keys::A {
                    seq![vpos.last()]
                } else {
                    Seq::empty()
                },
            },
        }
    }
}

/// Pick the vowel or vowels that receive the horn modifier (or the breve,
/// on `a`): an adjacent `uo`/`ou` pair takes it on both positions, `uu` on
/// the first, `oa` on the second; otherwise the last `u` or `o`, and failing
/// that a trailing `a`.
pub fn find_horn_positions(vowel_keys: &[u16], vowel_positions: &[usize]) -> (r: Vec<usize>)
    ensures
        r@ == spec_horn_positions(vowel_keys@, vowel_positions@),
{
    let mut r: Vec<usize> = Vec::new();
    if vowel_positions.len() == 0 || vowel_keys.len() != vowel_positions.len() {
        return r;
    }
    let n = vowel_positions.len();
    let mut i: usize = 0;
    while i < n - 1
        invariant
            i <= n,
            n >= 1,
            n == vowel_keys@.len(),
            n == vowel_positions@.len(),
            r@.len() == 0,
            spec_horn_pair_scan(vowel_keys@, vowel_positions@, 0) == spec_horn_pair_scan(
                vowel_keys@,
                vowel_positions@,
                i as int,
            ),
        decreases n - i,
    {
        if vowel_positions[i + 1] > 0 && vowel_positions[i + 1] - 1 == vowel_positions[i] {
            let k1 = vowel_keys[i];
            let k2 = vowel_keys[i + 1];
            if (k1 == keys::U && k2 == keys::O) || (k1 == keys::O && k2 == keys::U) {
                r.push(vowel_positions[i]);
                r.push(vowel_positions[i + 1]);
                return r;
            } else if k1 == keys::U && k2 == keys::U {
                r.push(vowel_positions[i]);
                return r;
            } else if k1 == keys::O && k2 == keys::A {
                r.push(vowel_positions[i + 1]);
                return r;
            }
        }
        i += 1;
    }
    // No adjacent pair decided; fall back to the last u or o.
    let mut j: usize = n;
    while j > 0
        invariant
            j <= n,
            n == vowel_keys@.len(),
            n == vowel_positions@.len(),
            r@.len() == 0,
            spec_horn_pair_scan(vowel_keys@, vowel_positions@, 0) is None,
            spec_last_uo(vowel_keys@, vowel_positions@, n - 1) == spec_last_uo(
                vowel_keys@,
                vowel_positions@,
                j - 1,
            ),
        decreases j,
    {
        let k = vowel_keys[j - 1];
        if k == keys::U || k == keys::O {
            r.push(vowel_positions[j - 1]);
            return r;
        }
        j -= 1;
    }
    // Finally a trailing a takes the breve.
    if vowel_keys[n - 1] == keys::A {
        r.push(vowel_positions[n - 1]);
    }
    r
}


/// The first-modified scan answers with one of the listed vowels.
proof fn lemma_first_mod_among(vowels: Seq<VowelInfo>)
    ensures
        match spec_first_mod(vowels) {
            Some(p) => exists|j: int| 0 <= j < vowels.len() && vowels[j].pos == p,
            None => true,
        },
    decreases vowels.len(),
{
    if vowels.len() > 0 && !vowels[0].has_tone_mod {
        lemma_first_mod_among(vowels.skip(1));
        match spec_first_mod(vowels.skip(1)) {
            Some(p) => {
                let j = choose|j: int| 0 <= j < vowels.skip(1).len() && vowels.skip(1)[j].pos == p;
                assert(vowels[j + 1].pos == p);
            },
            None => (),
        }
    }
}

/// The tone placement answers with the position of one of the vowels it
/// was given.
pub proof fn lemma_mark_position_among(
    vowels: Seq<VowelInfo>,
    has_final: bool,
    has_qu: bool,
    has_gi: bool,
    modern: bool,
)
    requires
        vowels.len() > 0,
    ensures
        exists|j: int|
            0 <= j < vowels.len() && vowels[j].pos == spec_mark_position(
                vowels,
                has_final,
                has_qu,
                has_gi,
                modern,
            ),
{
    if (has_gi && vowels.len() >= 2 && vowels[0].key == keys::I) || (has_qu && vowels.len() >= 2
        && vowels[0].key == keys::U) {
        lemma_mark_position_impl_among(vowels.skip(1), has_final, false, false, modern);
        let r = spec_mark_position_impl(vowels.skip(1), has_final, false, false, modern);
        let j = choose|j: int| 0 <= j < vowels.skip(1).len() && vowels.skip(1)[j].pos == r;
        assert(vowels[j + 1].pos == r);
    } else {
        lemma_mark_position_impl_among(vowels, has_final, has_qu, has_gi, modern);
    }
}

proof fn lemma_mark_position_impl_among(
    vowels: Seq<VowelInfo>,
    has_final: bool,
    has_qu: bool,
    has_gi: bool,
    modern: bool,
)
    requires
        vowels.len() > 0,
    ensures
        exists|j: int|
            0 <= j < vowels.len() && vowels[j].pos == spec_mark_position_impl(
                vowels,
                has_final,
                has_qu,
                has_gi,
                modern,
            ),
{
    let r = spec_mark_position_impl(vowels, has_final, has_qu, has_gi, modern);
    if vowels.len() == 1 {
        assert(vowels[0].pos == r);
    } else if vowels.len() == 2 {
        assert(vowels[0].pos == r || vowels[1].pos == r);
    } else if vowels.len() == 3 {
        assert(vowels[0].pos == r || vowels[1].pos == r || vowels[2].pos == r);
    } else {
        let mid = vowels.len() as int / 2;
        if !vowels[mid].has_tone_mod {
            lemma_first_mod_among(vowels);
        }
        assert(exists|j: int| 0 <= j < vowels.len() && vowels[j].pos == r);
    }
}

} // verus!
