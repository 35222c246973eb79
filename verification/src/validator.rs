//! Syllable validation for the keycode engine.
//!
//! A key sequence is parsed into initial consonants, vowels and final
//! consonants, then checked against the phonotactic whitelists.

use vstd::prelude::*;
use crate::composition::CompositionBuffer;
use crate::keycodes::{spec_is_vowel, spec_is_consonant};
use crate::rules;

verus! {

/// How a key sequence fares as a Vietnamese syllable.  Keycodes carry no
/// case or diacritic history, so this classification has no foreign-word
/// class; that gate lives in the character validator.
#[derive(Debug, Clone, Copy, PartialEq, Eq, Structural)]
pub enum ValidationResult {
    Valid,
    NoVowel,
    InvalidInitial,
    InvalidFinal,
    InvalidSpelling,
    InvalidVowelPattern,
}

impl ValidationResult {
    /// Whether the syllable passed every check.
    pub fn is_valid(&self) -> (r: bool)
        ensures
            r == (*self == ValidationResult::Valid),
    {
        *self == ValidationResult::Valid
    }
}

/// The positions of a syllable's parts within the key sequence.
#[derive(Debug)]
pub struct SyllableStructure {
    /// Initial consonant positions.
    pub initial: Vec<usize>,
    /// Vowel positions.
    pub vowels: Vec<usize>,
    /// Final consonant positions.
    pub final_consonant: Vec<usize>,
}

/// One step of the syllable parse: 0 scans the initial, 1 the vowels, 2 the
/// final consonants.  A vowel after the final reopens the vowel part.
pub open spec fn spec_parse_from(
    ks: Seq<u16>,
    i: int,
    state: int,
    ini: Seq<usize>,
    vow: Seq<usize>,
    fin: Seq<usize>,
) -> (Seq<usize>, Seq<usize>, Seq<usize>)
    decreases ks.len() - i,
{
    if i < 0 || i >= ks.len() {
        (ini, vow, fin)
    } else {
        let k = ks[i];
        let v = spec_is_vowel(k);
        let c = spec_is_consonant(k);
        if state == 0 {
            if v {
                spec_parse_from(ks, i + 1, 1, ini, vow.push(i as usize), fin)
            } else if c {
                spec_parse_from(ks, i + 1, 0, ini.push(i as usize), vow, fin)
            } else {
                spec_parse_from(ks, i + 1, 0, ini, vow, fin)
            }
        } else if state == 1 {
            if v {
                spec_parse_from(ks, i + 1, 1, ini, vow.push(i as usize), fin)
            } else if c {
                spec_parse_from(ks, i + 1, 2, ini, vow, fin.push(i as usize))
            } else {
                spec_parse_from(ks, i + 1, 1, ini, vow, fin)
            }
        } else {
            if c {
                spec_parse_from(ks, i + 1, 2, ini, vow, fin.push(i as usize))
            } else if v {
                spec_parse_from(ks, i + 1, 1, ini, vow.push(i as usize), fin)
            } else {
                spec_parse_from(ks, i + 1, 2, ini, vow, fin)
            }
        }
    }
}

/// The parse of a whole key sequence.
pub open spec fn spec_parse(ks: Seq<u16>) -> (Seq<usize>, Seq<usize>, Seq<usize>) {
    spec_parse_from(ks, 0, 0, Seq::empty(), Seq::empty(), Seq::empty())
}

/// Parse positions stay in range of the key sequence.
pub proof fn lemma_parse_from_in_range(
    ks: Seq<u16>,
    i: int,
    state: int,
    ini: Seq<usize>,
    vow: Seq<usize>,
    fin: Seq<usize>,
)
    requires
        ks.len() <= usize::MAX,
        forall|j: int| 0 <= j < ini.len() ==> ini[j] < ks.len(),
        forall|j: int| 0 <= j < vow.len() ==> vow[j] < ks.len(),
        forall|j: int| 0 <= j < fin.len() ==> fin[j] < ks.len(),
    ensures
        ({
            let (a, b, c) = spec_parse_from(ks, i, state, ini, vow, fin);
            (forall|j: int| 0 <= j < a.len() ==> a[j] < ks.len()) && (forall|j: int|
                0 <= j < b.len() ==> b[j] < ks.len()) && (forall|j: int|
                0 <= j < c.len() ==> c[j] < ks.len())
        }),
    decreases ks.len() - i,
{
    if 0 <= i < ks.len() {
        let k = ks[i];
        let v = spec_is_vowel(k);
        let c = spec_is_consonant(k);
        let iu = i as usize;
        assert(forall|j: int| 0 <= j < ini.push(iu).len() ==> ini.push(iu)[j] < ks.len());
        assert(forall|j: int| 0 <= j < vow.push(iu).len() ==> vow.push(iu)[j] < ks.len());
        assert(forall|j: int| 0 <= j < fin.push(iu).len() ==> fin.push(iu)[j] < ks.len());
        if state == 0 {
            if v {
                lemma_parse_from_in_range(ks, i + 1, 1, ini, vow.push(iu), fin);
                assert(spec_parse_from(ks, i, state, ini, vow, fin) == spec_parse_from(
                    ks, i + 1, 1, ini, vow.push(iu), fin));
            } else if c {
                lemma_parse_from_in_range(ks, i + 1, 0, ini.push(iu), vow, fin);
                assert(spec_parse_from(ks, i, state, ini, vow, fin) == spec_parse_from(
                    ks, i + 1, 0, ini.push(iu), vow, fin));
            } else {
                lemma_parse_from_in_range(ks, i + 1, 0, ini, vow, fin);
                assert(spec_parse_from(ks, i, state, ini, vow, fin) == spec_parse_from(
                    ks, i + 1, 0, ini, vow, fin));
            }
        } else if state == 1 {
            if v {
                lemma_parse_from_in_range(ks, i + 1, 1, ini, vow.push(iu), fin);
                assert(spec_parse_from(ks, i, state, ini, vow, fin) == spec_parse_from(
                    ks, i + 1, 1, ini, vow.push(iu), fin));
            } else if c {
                lemma_parse_from_in_range(ks, i + 1, 2, ini, vow, fin.push(iu));
                assert(spec_parse_from(ks, i, state, ini, vow, fin) == spec_parse_from(
                    ks, i + 1, 2, ini, vow, fin.push(iu)));
            } else {
                lemma_parse_from_in_range(ks, i + 1, 1, ini, vow, fin);
                assert(spec_parse_from(ks, i, state, ini, vow, fin) == spec_parse_from(
                    ks, i + 1, 1, ini, vow, fin));
            }
        } else {
            if c {
                lemma_parse_from_in_range(ks, i + 1, 2, ini, vow, fin.push(iu));
                assert(spec_parse_from(ks, i, state, ini, vow, fin) == spec_parse_from(
                    ks, i + 1, 2, ini, vow, fin.push(iu)));
            } else if v {
                lemma_parse_from_in_range(ks, i + 1, 1, ini, vow.push(iu), fin);
                assert(spec_parse_from(ks, i, state, ini, vow, fin) == spec_parse_from(
                    ks, i + 1, 1, ini, vow.push(iu), fin));
            } else {
                lemma_parse_from_in_range(ks, i + 1, 2, ini, vow, fin);
                assert(spec_parse_from(ks, i, state, ini, vow, fin) == spec_parse_from(
                    ks, i + 1, 2, ini, vow, fin));
            }
        }
    }
}

/// Parse a key sequence into initial, vowel and final positions.
pub fn parse_syllable(buffer_keys: &[u16]) -> (r: SyllableStructure)
    ensures
        (r.initial@, r.vowels@, r.final_consonant@) == spec_parse(buffer_keys@),
{
    let mut ini: Vec<usize> = Vec::new();
    let mut vow: Vec<usize> = Vec::new();
    let mut fin: Vec<usize> = Vec::new();
    let mut state: u8 = 0;
    let mut i: usize = 0;
    while i < buffer_keys.len()
        invariant
            i <= buffer_keys@.len(),
            state == 0 || state == 1 || state == 2,
            spec_parse_from(buffer_keys@, i as int, state as int, ini@, vow@, fin@) == spec_parse(
                buffer_keys@,
            ),
        decreases buffer_keys@.len() - i,
    {
        let k = buffer_keys[i];
        let v = crate::keycodes::is_vowel(k);
        let c = crate::keycodes::is_consonant(k);
        if state == 0 {
            if v {
                vow.push(i);
                state = 1;
            } else if c {
                ini.push(i);
            }
        } else if state == 1 {
            if v {
                vow.push(i);
            } else if c {
                fin.push(i);
                state = 2;
            }
        } else {
            if c {
                fin.push(i);
            } else if v {
                vow.push(i);
                state = 1;
            }
        }
        i += 1;
    }
    SyllableStructure { initial: ini, vowels: vow, final_consonant: fin }
}

/// The verdict of the keycode validator on a key sequence: no vowel, then
/// the onset, then the coda, then the spelling constraints, then the
/// nucleus whitelist, in that order.  This validator works on bare
/// keycodes and so has no foreign-word class: the word-level foreign gate
/// belongs to the character validator, which sees the typed characters.
pub open spec fn spec_validate_keys(ks: Seq<u16>) -> ValidationResult {
    if ks.len() == 0 {
        ValidationResult::NoVowel
    } else {
        let (ini, vow, fin) = spec_parse(ks);
        let ini_keys = ini.map_values(|p: usize| ks[p as int]);
        let vow_keys = vow.map_values(|p: usize| ks[p as int]);
        let fin_keys = fin.map_values(|p: usize| ks[p as int]);
        if vow.len() == 0 {
            ValidationResult::NoVowel
        } else if !rules::spec_valid_initial(ini_keys) {
            ValidationResult::InvalidInitial
        } else if !rules::spec_valid_final(fin_keys) {
            ValidationResult::InvalidFinal
        } else if ini.len() > 0 && !rules::spec_spelling_ok(ini_keys, vow_keys[0]) {
            ValidationResult::InvalidSpelling
        } else if vow.len() >= 2 && !rules::spec_valid_vowel_pattern(vow_keys) {
            ValidationResult::InvalidVowelPattern
        } else {
            ValidationResult::Valid
        }
    }
}

fn collect_keys(buffer_keys: &[u16], positions: &Vec<usize>) -> (r: Vec<u16>)
    requires
        forall|j: int| 0 <= j < positions@.len() ==> positions@[j] < buffer_keys@.len(),
    ensures
        r@ == positions@.map_values(|p: usize| buffer_keys@[p as int]),
{
    let mut r: Vec<u16> = Vec::new();
    let mut i: usize = 0;
    while i < positions.len()
        invariant
            i <= positions@.len(),
            forall|j: int| 0 <= j < positions@.len() ==> positions@[j] < buffer_keys@.len(),
            r@ == positions@.take(i as int).map_values(|p: usize| buffer_keys@[p as int]),
        decreases positions@.len() - i,
    {
        r.push(buffer_keys[positions[i]]);
        i += 1;
        proof {
            assert(r@ =~= positions@.take(i as int).map_values(
                |p: usize| buffer_keys@[p as int],
            ));
        }
    }
    proof {
        assert(positions@.take(positions@.len() as int) =~= positions@);
    }
    r
}

/// Validate a key sequence as a Vietnamese syllable: it must have a vowel,
/// a whitelisted onset and coda, obey the `c/k`, `g/gh`, `ng/ngh` spelling
/// constraints, and carry a whitelisted vowel nucleus.
pub fn validate_keys(buffer_keys: &[u16]) -> (r: ValidationResult)
    ensures
        r == spec_validate_keys(buffer_keys@),
{
    if buffer_keys.len() == 0 {
        return ValidationResult::NoVowel;
    }
    let n_keys = buffer_keys.len();
    let syllable = parse_syllable(buffer_keys);
    proof {
        assert(buffer_keys@.len() == n_keys);
        assert(forall|j: int| 0 <= j < Seq::<usize>::empty().len() ==> Seq::<usize>::empty()[j]
            < buffer_keys@.len());
        lemma_parse_from_in_range(
            buffer_keys@,
            0,
            0,
            Seq::empty(),
            Seq::empty(),
            Seq::empty(),
        );
        assert(syllable.initial@ == spec_parse(buffer_keys@).0);
        assert(syllable.vowels@ == spec_parse(buffer_keys@).1);
        assert(syllable.final_consonant@ == spec_parse(buffer_keys@).2);
        assert(forall|j: int| 0 <= j < syllable.initial@.len() ==> syllable.initial@[j]
            < buffer_keys@.len());
        assert(forall|j: int| 0 <= j < syllable.vowels@.len() ==> syllable.vowels@[j]
            < buffer_keys@.len());
        assert(forall|j: int| 0 <= j < syllable.final_consonant@.len()
            ==> syllable.final_consonant@[j] < buffer_keys@.len());
    }
    if syllable.vowels.len() == 0 {
        return ValidationResult::NoVowel;
    }
    let ini_keys = collect_keys(buffer_keys, &syllable.initial);
    let vow_keys = collect_keys(buffer_keys, &syllable.vowels);
    let fin_keys = collect_keys(buffer_keys, &syllable.final_consonant);
    if !rules::is_valid_initial(ini_keys.as_slice()) {
        return ValidationResult::InvalidInitial;
    }
    if !rules::is_valid_final(fin_keys.as_slice()) {
        return ValidationResult::InvalidFinal;
    }
    if syllable.initial.len() > 0 && !rules::spelling_ok(ini_keys.as_slice(), vow_keys[0]) {
        return ValidationResult::InvalidSpelling;
    }
    if vow_keys.len() >= 2 && !rules::is_valid_vowel_pattern(vow_keys.as_slice()) {
        return ValidationResult::InvalidVowelPattern;
    }
    ValidationResult::Valid
}

/// Validate the units of a composition buffer.
pub fn validate(buffer: &CompositionBuffer) -> (r: ValidationResult)
    ensures
        r == spec_validate_keys(crate::marks::spec_unit_keys(buffer.units@)),
{
    let ks = buffer.keys();
    proof {
        assert(ks@ =~= crate::marks::spec_unit_keys(buffer.units@));
    }
    validate_keys(ks.as_slice())
}

/// Whether a key sequence is a fully valid Vietnamese syllable.
pub fn is_valid(buffer_keys: &[u16]) -> (r: bool)
    ensures
        r == (spec_validate_keys(buffer_keys@) == ValidationResult::Valid),
{
    let v = validate_keys(buffer_keys);
    v.is_valid()
}

/// The lenient verdict used while a syllable is still being composed: the
/// nucleus whitelist is skipped, so intermediate states such as a doubled
/// vowel pass.
pub open spec fn spec_valid_for_transform(ks: Seq<u16>) -> bool {
    if ks.len() == 0 {
        false
    } else {
        let (ini, vow, fin) = spec_parse(ks);
        let ini_keys = ini.map_values(|p: usize| ks[p as int]);
        let fin_keys = fin.map_values(|p: usize| ks[p as int]);
        let vow_keys = vow.map_values(|p: usize| ks[p as int]);
        vow.len() > 0 && rules::spec_valid_initial(ini_keys) && (ini.len() == 0
            || rules::spec_spelling_ok(ini_keys, vow_keys[0])) && rules::spec_valid_final(fin_keys)
    }
}

/// Check whether a key sequence could still become valid Vietnamese; the
/// vowel-pattern check is skipped to allow intermediate states.
pub fn is_valid_for_transform(buffer_keys: &[u16]) -> (r: bool)
    ensures
        r == spec_valid_for_transform(buffer_keys@),
{
    if buffer_keys.len() == 0 {
        return false;
    }
    let n_keys = buffer_keys.len();
    let syllable = parse_syllable(buffer_keys);
    proof {
        assert(buffer_keys@.len() == n_keys);
        assert(forall|j: int| 0 <= j < Seq::<usize>::empty().len() ==> Seq::<usize>::empty()[j]
            < buffer_keys@.len());
        lemma_parse_from_in_range(
            buffer_keys@,
            0,
            0,
            Seq::empty(),
            Seq::empty(),
            Seq::empty(),
        );
        assert(syllable.initial@ == spec_parse(buffer_keys@).0);
        assert(syllable.vowels@ == spec_parse(buffer_keys@).1);
        assert(syllable.final_consonant@ == spec_parse(buffer_keys@).2);
        assert(forall|j: int| 0 <= j < syllable.initial@.len() ==> syllable.initial@[j]
            < buffer_keys@.len());
        assert(forall|j: int| 0 <= j < syllable.vowels@.len() ==> syllable.vowels@[j]
            < buffer_keys@.len());
        assert(forall|j: int| 0 <= j < syllable.final_consonant@.len()
            ==> syllable.final_consonant@[j] < buffer_keys@.len());
    }
    if syllable.vowels.len() == 0 {
        return false;
    }
    let ini_keys = collect_keys(buffer_keys, &syllable.initial);
    let vow_keys = collect_keys(buffer_keys, &syllable.vowels);
    let fin_keys = collect_keys(buffer_keys, &syllable.final_consonant);
    if !rules::is_valid_initial(ini_keys.as_slice()) {
        return false;
    }
    if syllable.initial.len() > 0 && !rules::spelling_ok(ini_keys.as_slice(), vow_keys[0]) {
        return false;
    }
    if !rules::is_valid_final(fin_keys.as_slice()) {
        return false;
    }
    true
}

} // verus!
