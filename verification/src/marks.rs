//! Buffer transformations for the keycode engine: tone marks, shape
//! modifiers and the `d` stroke, together with their reversals.

use vstd::prelude::*;
use crate::composition::{CompositionBuffer, InputUnit, spec_vowel_positions};
use crate::keycodes::spec_is_vowel;
use crate::keys;
use crate::mark;
use crate::phonology::{
    VowelInfo, spec_mark_position, spec_horn_positions, find_mark_position, find_horn_positions,
};
use crate::tone;

verus! {

/// The outcome of a buffer transformation.
#[derive(Debug)]
pub struct TransformResult {
    /// The positions that were modified.
    pub modified_positions: Vec<usize>,
    /// Whether any transformation was applied.
    pub applied: bool,
}

impl TransformResult {
    /// No transformation took place.
    pub fn none() -> (r: Self)
        ensures
            r.modified_positions@.len() == 0,
            !r.applied,
    {
        TransformResult { modified_positions: Vec::new(), applied: false }
    }

    /// A transformation modified the given positions.
    pub fn success(positions: Vec<usize>) -> (r: Self)
        ensures
            r.modified_positions@ == positions@,
            r.applied,
    {
        TransformResult { modified_positions: positions, applied: true }
    }
}

/// Every vowel position of a unit sequence is in range and points at a
/// vowel unit.
pub proof fn lemma_vowel_positions_in_range(s: Seq<InputUnit>)
    requires
        s.len() <= usize::MAX,
    ensures
        forall|i: int|
            0 <= i < spec_vowel_positions(s).len() ==> spec_vowel_positions(s)[i] < s.len()
                && spec_is_vowel(s[spec_vowel_positions(s)[i] as int].key),
    decreases s.len(),
{
    if s.len() > 0 {
        let d = s.drop_last();
        lemma_vowel_positions_in_range(d);
        let pd = spec_vowel_positions(d);
        let ps = spec_vowel_positions(s);
        assert forall|i: int| 0 <= i < ps.len() implies ps[i] < s.len() && spec_is_vowel(
            s[ps[i] as int].key,
        ) by {
            if i < pd.len() {
                assert(ps[i] == pd[i]);
                assert(pd[i] < d.len() && spec_is_vowel(d[pd[i] as int].key));
                assert(d[pd[i] as int] == s[pd[i] as int]);
            } else {
                if spec_is_vowel(s.last().key) {
                    assert(ps == pd + seq![(s.len() - 1) as usize]);
                    assert(i == pd.len());
                    assert(ps[i] == seq![(s.len() - 1) as usize][i - pd.len()]);
                    assert(s[ps[i] as int] == s.last());
                } else {
                    assert(ps =~= pd);
                }
            }
        }
    }
}

/// A unit with its tone mark replaced.
pub open spec fn spec_with_mark(u: InputUnit, m: u8) -> InputUnit {
    InputUnit { mark_type: m, ..u }
}

/// A unit with its shape modifier replaced.
pub open spec fn spec_with_tone_mod(u: InputUnit, t: u8) -> InputUnit {
    InputUnit { tone_mod: t, ..u }
}

/// A unit with its stroke flag replaced.
pub open spec fn spec_with_stroke(u: InputUnit, st: bool) -> InputUnit {
    InputUnit { is_stroked: st, ..u }
}

/// Update one unit of a sequence, if the index is in range.
pub open spec fn spec_update_at(s: Seq<InputUnit>, i: usize, u: InputUnit) -> Seq<InputUnit> {
    if i < s.len() {
        s.update(i as int, u)
    } else {
        s
    }
}

/// Clear the tone marks at the first `k` listed positions.
pub open spec fn spec_clear_marks_upto(s: Seq<InputUnit>, vpos: Seq<usize>, k: int) -> Seq<
    InputUnit,
>
    decreases k,
{
    if k <= 0 {
        s
    } else {
        let prev = spec_clear_marks_upto(s, vpos, k - 1);
        let p = vpos[k - 1];
        if p < prev.len() {
            spec_update_at(prev, p, spec_with_mark(prev[p as int], mark::NONE))
        } else {
            prev
        }
    }
}

/// The vowels of a unit sequence, described for the placement rules.
pub open spec fn spec_vowel_infos(s: Seq<InputUnit>) -> Seq<VowelInfo> {
    let vpos = spec_vowel_positions(s);
    Seq::new(
        vpos.len(),
        |i: int|
            VowelInfo {
                key: s[vpos[i] as int].key,
                pos: vpos[i],
                has_tone_mod: s[vpos[i] as int].tone_mod != tone::NONE,
            },
    )
}

/// The keycodes of a unit sequence.
pub open spec fn spec_unit_keys(s: Seq<InputUnit>) -> Seq<u16> {
    Seq::new(s.len(), |i: int| s[i].key)
}

/// The result of placing a tone mark on a unit sequence: the new sequence,
/// the modified positions, and whether anything was applied.
pub open spec fn spec_apply_mark(s: Seq<InputUnit>, mark_value: u8, modern: bool) -> (
    Seq<InputUnit>,
    Seq<usize>,
    bool,
) {
    let vpos = spec_vowel_positions(s);
    if vpos.len() == 0 {
        (s, Seq::empty(), false)
    } else {
        let vowels = spec_vowel_infos(s);
        let ks = spec_unit_keys(s);
        let has_qu = ks.len() >= 2 && ks[0] == keys::Q && ks[1] == keys::U;
        let has_gi = ks.len() >= 2 && ks[0] == keys::G && ks[1] == keys::I;
        let has_final = s.len() > vpos.last() + 1;
        let pos = spec_mark_position(vowels, has_final, has_qu, has_gi, modern);
        let cleared = spec_clear_marks_upto(s, vpos, vpos.len() as int);
        if pos < cleared.len() {
            (
                spec_update_at(cleared, pos, spec_with_mark(cleared[pos as int], mark_value)),
                seq![pos],
                true,
            )
        } else {
            (cleared, Seq::empty(), false)
        }
    }
}

/// Apply a tone mark to the buffer: clear any existing mark on the vowels,
/// then place the new mark on the vowel the placement rules pick.
pub fn apply_mark(buffer: &mut CompositionBuffer, mark_value: u8, use_modern_style: bool) -> (r:
    TransformResult)
    requires
        old(buffer).wf(),
    ensures
        final(buffer).wf(),
        final(buffer).raw_input@ == old(buffer).raw_input@,
        ({
            let (units2, positions, applied) = spec_apply_mark(
                old(buffer).units@,
                mark_value,
                use_modern_style,
            );
            final(buffer).units@ == units2 && r.modified_positions@ == positions && r.applied
                == applied
        }),
{
    let ghost s0 = buffer.units@;
    let n_units = buffer.units.len();
    proof {
        assert(s0.len() == n_units);
        lemma_vowel_positions_in_range(s0);
    }
    let vowel_positions = buffer.find_vowels();
    if vowel_positions.len() == 0 {
        return TransformResult::none();
    }
    // Describe the vowels for the placement rules.
    let mut vowels: Vec<VowelInfo> = Vec::new();
    let mut i: usize = 0;
    while i < vowel_positions.len()
        invariant
            i <= vowel_positions@.len(),
            buffer.units@ == s0,
            buffer.wf(),
            vowel_positions@ == spec_vowel_positions(s0),
            forall|j: int|
                0 <= j < vowel_positions@.len() ==> vowel_positions@[j] < s0.len(),
            vowels@ == spec_vowel_infos(s0).take(i as int),
        decreases vowel_positions@.len() - i,
    {
        let p = vowel_positions[i];
        let u = buffer.units[p];
        vowels.push(VowelInfo { key: u.key, pos: p, has_tone_mod: u.tone_mod != tone::NONE });
        i += 1;
        proof {
            assert(vowels@ =~= spec_vowel_infos(s0).take(i as int));
        }
    }
    proof {
        assert(vowels@ =~= spec_vowel_infos(s0));
    }
    // Detect qu-/gi- initials and a final consonant.
    let has_qu_initial = buffer.units.len() >= 2 && buffer.units[0].key == keys::Q
        && buffer.units[1].key == keys::U;
    let has_gi_initial = buffer.units.len() >= 2 && buffer.units[0].key == keys::G
        && buffer.units[1].key == keys::I;
    proof {
        assert(spec_unit_keys(s0).len() >= 2 ==> spec_unit_keys(s0)[0] == s0[0].key
            && spec_unit_keys(s0)[1] == s0[1].key);
    }
    let last_vowel_pos = vowel_positions[vowel_positions.len() - 1];
    let has_final = buffer.units.len() > last_vowel_pos + 1;
    let pos = find_mark_position(
        vowels.as_slice(),
        has_final,
        has_qu_initial,
        has_gi_initial,
        use_modern_style,
    );
    // Clear any existing marks on the vowels.
    let mut k: usize = 0;
    while k < vowel_positions.len()
        invariant
            k <= vowel_positions@.len(),
            buffer.wf(),
            buffer.raw_input@ == old(buffer).raw_input@,
            vowel_positions@ == spec_vowel_positions(s0),
            buffer.units@ == spec_clear_marks_upto(s0, vowel_positions@, k as int),
        decreases vowel_positions@.len() - k,
    {
        let p = vowel_positions[k];
        match buffer.get(p) {
            Some(u) => {
                let nu = InputUnit {
                    key: u.key,
                    is_uppercase: u.is_uppercase,
                    tone_mod: u.tone_mod,
                    mark_type: mark::NONE,
                    is_stroked: u.is_stroked,
                };
                buffer.set_unit(p, nu);
            },
            None => (),
        }
        k += 1;
    }
    // Place the new mark.
    if pos < buffer.units.len() {
        let u = buffer.units[pos];
        let nu = InputUnit {
            key: u.key,
            is_uppercase: u.is_uppercase,
            tone_mod: u.tone_mod,
            mark_type: mark_value,
            is_stroked: u.is_stroked,
        };
        buffer.set_unit(pos, nu);
        let mut positions: Vec<usize> = Vec::new();
        positions.push(pos);
        proof {
            assert(positions@ =~= seq![pos]);
        }
        TransformResult::success(positions)
    } else {
        TransformResult::none()
    }
}

/// Horn application over the first `k` target positions: units whose shape
/// modifier is still clear take the horn and are recorded.
pub open spec fn spec_apply_horns_upto(s: Seq<InputUnit>, targets: Seq<usize>, k: int) -> (
    Seq<InputUnit>,
    Seq<usize>,
)
    decreases k,
{
    if k <= 0 {
        (s, Seq::empty())
    } else {
        let (prev, modified) = spec_apply_horns_upto(s, targets, k - 1);
        let p = targets[k - 1];
        if p < prev.len() && prev[p as int].tone_mod == tone::NONE {
            (
                spec_update_at(prev, p, spec_with_tone_mod(prev[p as int], tone::HORN)),
                modified.push(p),
            )
        } else {
            (prev, modified)
        }
    }
}

/// The result of applying a shape modifier to a unit sequence.
pub open spec fn spec_apply_tone_modifier(s: Seq<InputUnit>, tone_value: u8, trigger_key: u16) -> (
    Seq<InputUnit>,
    Seq<usize>,
    bool,
) {
    let vpos = spec_vowel_positions(s);
    if vpos.len() == 0 {
        (s, Seq::empty(), false)
    } else if tone_value == tone::CIRCUMFLEX {
        let last = vpos.last();
        if last < s.len() && s[last as int].key == trigger_key && s[last as int].tone_mod
            == tone::NONE {
            (
                spec_update_at(s, last, spec_with_tone_mod(s[last as int], tone::CIRCUMFLEX)),
                seq![last],
                true,
            )
        } else {
            (s, Seq::empty(), false)
        }
    } else if tone_value == tone::HORN {
        let vkeys = Seq::new(vpos.len(), |i: int| s[vpos[i] as int].key);
        let targets = spec_horn_positions(vkeys, vpos);
        if targets.len() == 0 {
            (s, Seq::empty(), false)
        } else {
            let (units2, modified) = spec_apply_horns_upto(s, targets, targets.len() as int);
            if modified.len() == 0 {
                (units2, modified, false)
            } else {
                (units2, modified, true)
            }
        }
    } else {
        (s, Seq::empty(), false)
    }
}

/// Apply a shape modifier to the buffer.  A circumflex lands on the last
/// vowel only when that vowel repeats the triggering key (the Telex `aa`,
/// `ee`, `oo` doublings); a horn distributes over the targets the placement
/// rules pick.
pub fn apply_tone_modifier(
    buffer: &mut CompositionBuffer,
    tone_value: u8,
    trigger_key: u16,
) -> (r: TransformResult)
    requires
        old(buffer).wf(),
    ensures
        final(buffer).wf(),
        final(buffer).raw_input@ == old(buffer).raw_input@,
        ({
            let (units2, positions, applied) = spec_apply_tone_modifier(
                old(buffer).units@,
                tone_value,
                trigger_key,
            );
            final(buffer).units@ == units2 && r.modified_positions@ == positions && r.applied
                == applied
        }),
{
    let ghost s0 = buffer.units@;
    let n_units = buffer.units.len();
    proof {
        assert(s0.len() == n_units);
        lemma_vowel_positions_in_range(s0);
    }
    let vowel_positions = buffer.find_vowels();
    if vowel_positions.len() == 0 {
        return TransformResult::none();
    }
    if tone_value == tone::CIRCUMFLEX {
        let last = vowel_positions[vowel_positions.len() - 1];
        let u = buffer.units[last];
        if u.key == trigger_key && u.tone_mod == tone::NONE {
            let nu = InputUnit {
                key: u.key,
                is_uppercase: u.is_uppercase,
                tone_mod: tone::CIRCUMFLEX,
                mark_type: u.mark_type,
                is_stroked: u.is_stroked,
            };
            buffer.set_unit(last, nu);
            let mut positions: Vec<usize> = Vec::new();
            positions.push(last);
            proof {
                assert(positions@ =~= seq![last]);
            }
            return TransformResult::success(positions);
        }
        return TransformResult::none();
    }
    if tone_value == tone::HORN {
        // Collect the vowel keys, then the horn targets.
        let mut vowel_keys: Vec<u16> = Vec::new();
        let mut i: usize = 0;
        let ghost vkeys = Seq::new(
            vowel_positions@.len(),
            |j: int| s0[vowel_positions@[j] as int].key,
        );
        while i < vowel_positions.len()
            invariant
                i <= vowel_positions@.len(),
                buffer.units@ == s0,
                buffer.wf(),
                vowel_positions@ == spec_vowel_positions(s0),
                forall|j: int|
                    0 <= j < vowel_positions@.len() ==> vowel_positions@[j] < s0.len(),
                vkeys == Seq::new(
                    vowel_positions@.len(),
                    |j: int| s0[vowel_positions@[j] as int].key,
                ),
                vowel_keys@ == vkeys.take(i as int),
            decreases vowel_positions@.len() - i,
        {
            let p = vowel_positions[i];
            vowel_keys.push(buffer.units[p].key);
            i += 1;
            proof {
                assert(vowel_keys@ =~= vkeys.take(i as int));
            }
        }
        proof {
            assert(vowel_keys@ =~= vkeys);
        }
        let targets = find_horn_positions(vowel_keys.as_slice(), vowel_positions.as_slice());
        if targets.len() == 0 {
            return TransformResult::none();
        }
        let mut modified: Vec<usize> = Vec::new();
        let mut k: usize = 0;
        while k < targets.len()
            invariant
                k <= targets@.len(),
                buffer.wf(),
                buffer.raw_input@ == old(buffer).raw_input@,
                (buffer.units@, modified@) == spec_apply_horns_upto(s0, targets@, k as int),
            decreases targets@.len() - k,
        {
            let p = targets[k];
            if p < buffer.units.len() {
                let u = buffer.units[p];
                if u.tone_mod == tone::NONE {
                    let nu = InputUnit {
                        key: u.key,
                        is_uppercase: u.is_uppercase,
                        tone_mod: tone::HORN,
                        mark_type: u.mark_type,
                        is_stroked: u.is_stroked,
                    };
                    buffer.set_unit(p, nu);
                    modified.push(p);
                }
            }
            k += 1;
        }
        if modified.len() == 0 {
            return TransformResult::none();
        }
        return TransformResult::success(modified);
    }
    TransformResult::none()
}

/// The position of the first unstroked `d`, if any.
pub open spec fn spec_first_unstroked_d(s: Seq<InputUnit>, i: int) -> Option<usize>
    decreases s.len() - i,
{
    if i < 0 || i >= s.len() {
        None
    } else if s[i].key == keys::D && !s[i].is_stroked {
        Some(i as usize)
    } else {
        spec_first_unstroked_d(s, i + 1)
    }
}

/// The position of the first stroked `d`, if any.
pub open spec fn spec_first_stroked_d(s: Seq<InputUnit>, i: int) -> Option<usize>
    decreases s.len() - i,
{
    if i < 0 || i >= s.len() {
        None
    } else if s[i].key == keys::D && s[i].is_stroked {
        Some(i as usize)
    } else {
        spec_first_stroked_d(s, i + 1)
    }
}

/// The result of stroking the first unstroked `d`.
pub open spec fn spec_apply_stroke(s: Seq<InputUnit>) -> (Seq<InputUnit>, bool) {
    match spec_first_unstroked_d(s, 0) {
        Some(p) => (spec_update_at(s, p, spec_with_stroke(s[p as int], true)), true),
        None => (s, false),
    }
}

/// Stroke the first unstroked `d` into `đ`.
pub fn apply_stroke(buffer: &mut CompositionBuffer) -> (r: TransformResult)
    requires
        old(buffer).wf(),
    ensures
        final(buffer).wf(),
        final(buffer).raw_input@ == old(buffer).raw_input@,
        ({
            match spec_first_unstroked_d(old(buffer).units@, 0) {
                Some(p) => final(buffer).units@ == spec_update_at(
                    old(buffer).units@,
                    p,
                    spec_with_stroke(old(buffer).units@[p as int], true),
                ) && r.modified_positions@ == seq![p] && r.applied,
                None => final(buffer).units@ == old(buffer).units@ && !r.applied
                    && r.modified_positions@.len() == 0,
            }
        }),
{
    let ghost s0 = buffer.units@;
    let mut i: usize = 0;
    while i < buffer.units.len()
        invariant
            i <= s0.len(),
            buffer.units@ == s0,
            old(buffer).units@ == s0,
            buffer.wf(),
            buffer.raw_input@ == old(buffer).raw_input@,
            spec_first_unstroked_d(s0, 0) == spec_first_unstroked_d(s0, i as int),
        decreases s0.len() - i,
    {
        let u = buffer.units[i];
        if u.key == keys::D && !u.is_stroked {
            let nu = InputUnit {
                key: u.key,
                is_uppercase: u.is_uppercase,
                tone_mod: u.tone_mod,
                mark_type: u.mark_type,
                is_stroked: true,
            };
            buffer.set_unit(i, nu);
            let mut positions: Vec<usize> = Vec::new();
            positions.push(i);
            proof {
                assert(positions@ =~= seq![i]);
            }
            return TransformResult::success(positions);
        }
        i += 1;
    }
    TransformResult::none()
}

/// Unstroke the first stroked `d` back to `d`.
pub fn revert_stroke(buffer: &mut CompositionBuffer) -> (r: TransformResult)
    requires
        old(buffer).wf(),
    ensures
        final(buffer).wf(),
        final(buffer).raw_input@ == old(buffer).raw_input@,
        ({
            match spec_first_stroked_d(old(buffer).units@, 0) {
                Some(p) => final(buffer).units@ == spec_update_at(
                    old(buffer).units@,
                    p,
                    spec_with_stroke(old(buffer).units@[p as int], false),
                ) && r.modified_positions@ == seq![p] && r.applied,
                None => final(buffer).units@ == old(buffer).units@ && !r.applied
                    && r.modified_positions@.len() == 0,
            }
        }),
{
    let ghost s0 = buffer.units@;
    let mut i: usize = 0;
    while i < buffer.units.len()
        invariant
            i <= s0.len(),
            buffer.units@ == s0,
            old(buffer).units@ == s0,
            buffer.wf(),
            buffer.raw_input@ == old(buffer).raw_input@,
            spec_first_stroked_d(s0, 0) == spec_first_stroked_d(s0, i as int),
        decreases s0.len() - i,
    {
        let u = buffer.units[i];
        if u.key == keys::D && u.is_stroked {
            let nu = InputUnit {
                key: u.key,
                is_uppercase: u.is_uppercase,
                tone_mod: u.tone_mod,
                mark_type: u.mark_type,
                is_stroked: false,
            };
            buffer.set_unit(i, nu);
            let mut positions: Vec<usize> = Vec::new();
            positions.push(i);
            proof {
                assert(positions@ =~= seq![i]);
            }
            return TransformResult::success(positions);
        }
        i += 1;
    }
    TransformResult::none()
}

/// The last listed vowel position, at or below list index `k`, whose unit
/// has the given key and a shape modifier set.
pub open spec fn spec_last_modded(s: Seq<InputUnit>, vpos: Seq<usize>, target: u16, k: int)
    -> Option<usize>
    decreases k + 1,
{
    if k < 0 || k >= vpos.len() {
        None
    } else {
        let p = vpos[k];
        if p < s.len() && s[p as int].key == target && s[p as int].tone_mod != tone::NONE {
            Some(p)
        } else {
            spec_last_modded(s, vpos, target, k - 1)
        }
    }
}

/// The last listed vowel position, at or below list index `k`, whose unit
/// carries a tone mark.
pub open spec fn spec_last_marked(s: Seq<InputUnit>, vpos: Seq<usize>, k: int) -> Option<usize>
    decreases k + 1,
{
    if k < 0 || k >= vpos.len() {
        None
    } else {
        let p = vpos[k];
        if p < s.len() && s[p as int].mark_type != mark::NONE {
            Some(p)
        } else {
            spec_last_marked(s, vpos, k - 1)
        }
    }
}

/// Remove the shape modifier from the last vowel that repeats the target
/// key and carries one.
pub fn revert_tone(buffer: &mut CompositionBuffer, target_key: u16) -> (r: TransformResult)
    requires
        old(buffer).wf(),
    ensures
        final(buffer).wf(),
        final(buffer).raw_input@ == old(buffer).raw_input@,
        ({
            let vpos = spec_vowel_positions(old(buffer).units@);
            match spec_last_modded(old(buffer).units@, vpos, target_key, vpos.len() - 1) {
                Some(p) => final(buffer).units@ == spec_update_at(
                    old(buffer).units@,
                    p,
                    spec_with_tone_mod(old(buffer).units@[p as int], tone::NONE),
                ) && r.modified_positions@ == seq![p] && r.applied,
                None => final(buffer).units@ == old(buffer).units@ && !r.applied
                    && r.modified_positions@.len() == 0,
            }
        }),
{
    let ghost s0 = buffer.units@;
    let vowel_positions = buffer.find_vowels();
    let mut k: usize = vowel_positions.len();
    while k > 0
        invariant
            k <= vowel_positions@.len(),
            buffer.units@ == s0,
            old(buffer).units@ == s0,
            buffer.wf(),
            buffer.raw_input@ == old(buffer).raw_input@,
            vowel_positions@ == spec_vowel_positions(s0),
            spec_last_modded(s0, vowel_positions@, target_key, vowel_positions@.len() - 1)
                == spec_last_modded(s0, vowel_positions@, target_key, k - 1),
        decreases k,
    {
        let p = vowel_positions[k - 1];
        if p < buffer.units.len() {
            let u = buffer.units[p];
            if u.key == target_key && u.tone_mod != tone::NONE {
                let nu = InputUnit {
                    key: u.key,
                    is_uppercase: u.is_uppercase,
                    tone_mod: tone::NONE,
                    mark_type: u.mark_type,
                    is_stroked: u.is_stroked,
                };
                buffer.set_unit(p, nu);
                let mut positions: Vec<usize> = Vec::new();
                positions.push(p);
                proof {
                    assert(positions@ =~= seq![p]);
                }
                return TransformResult::success(positions);
            }
        }
        k -= 1;
    }
    TransformResult::none()
}

/// Remove the tone mark from the last vowel that carries one.
pub fn revert_mark(buffer: &mut CompositionBuffer) -> (r: TransformResult)
    requires
        old(buffer).wf(),
    ensures
        final(buffer).wf(),
        final(buffer).raw_input@ == old(buffer).raw_input@,
        ({
            let vpos = spec_vowel_positions(old(buffer).units@);
            match spec_last_marked(old(buffer).units@, vpos, vpos.len() - 1) {
                Some(p) => final(buffer).units@ == spec_update_at(
                    old(buffer).units@,
                    p,
                    spec_with_mark(old(buffer).units@[p as int], mark::NONE),
                ) && r.modified_positions@ == seq![p] && r.applied,
                None => final(buffer).units@ == old(buffer).units@ && !r.applied
                    && r.modified_positions@.len() == 0,
            }
        }),
{
    let ghost s0 = buffer.units@;
    let vowel_positions = buffer.find_vowels();
    let mut k: usize = vowel_positions.len();
    while k > 0
        invariant
            k <= vowel_positions@.len(),
            buffer.units@ == s0,
            old(buffer).units@ == s0,
            buffer.wf(),
            buffer.raw_input@ == old(buffer).raw_input@,
            vowel_positions@ == spec_vowel_positions(s0),
            spec_last_marked(s0, vowel_positions@, vowel_positions@.len() - 1) == spec_last_marked(
                s0,
                vowel_positions@,
                k - 1,
            ),
        decreases k,
    {
        let p = vowel_positions[k - 1];
        if p < buffer.units.len() {
            let u = buffer.units[p];
            if u.mark_type != mark::NONE {
                let nu = InputUnit {
                    key: u.key,
                    is_uppercase: u.is_uppercase,
                    tone_mod: u.tone_mod,
                    mark_type: mark::NONE,
                    is_stroked: u.is_stroked,
                };
                buffer.set_unit(p, nu);
                let mut positions: Vec<usize> = Vec::new();
                positions.push(p);
                proof {
                    assert(positions@ =~= seq![p]);
                }
                return TransformResult::success(positions);
            }
        }
        k -= 1;
    }
    TransformResult::none()
}

} // verus!
