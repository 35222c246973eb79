//! Phonotactic whitelists for the keycode engine.
//!
//! Valid initial consonant clusters, final consonant clusters, vowel
//! patterns, and the `c/k`, `g/gh`, `ng/ngh` spelling constraints, all over
//! keycodes.

use vstd::prelude::*;
use crate::keys;

verus! {

/// A single consonant keycode that may open a syllable.
pub open spec fn spec_initial_single(k: u16) -> bool {
    k == keys::B || k == keys::C || k == keys::D || k == keys::G || k == keys::H || k == keys::K
        || k == keys::L || k == keys::M || k == keys::N || k == keys::P || k == keys::Q
        || k == keys::R || k == keys::S || k == keys::T || k == keys::V || k == keys::X
}

/// A two-key cluster that may open a syllable.
pub open spec fn spec_initial_double(a: u16, b: u16) -> bool {
    (a == keys::C && b == keys::H) || (a == keys::G && b == keys::H) || (a == keys::G && b
        == keys::I) || (a == keys::K && b == keys::H) || (a == keys::N && b == keys::G) || (a
        == keys::N && b == keys::H) || (a == keys::P && b == keys::H) || (a == keys::Q && b
        == keys::U) || (a == keys::T && b == keys::H) || (a == keys::T && b == keys::R)
}

/// The initial consonant cluster is a valid Vietnamese onset (possibly
/// empty; `ngh` is the only three-key cluster).
pub open spec fn spec_valid_initial(s: Seq<u16>) -> bool {
    if s.len() == 0 {
        true
    } else if s.len() == 1 {
        spec_initial_single(s[0])
    } else if s.len() == 2 {
        spec_initial_double(s[0], s[1])
    } else if s.len() == 3 {
        s[0] == keys::N && s[1] == keys::G && s[2] == keys::H
    } else {
        false
    }
}

/// Check an initial consonant cluster against the onset whitelist.
pub fn is_valid_initial(consonants: &[u16]) -> (r: bool)
    ensures
        r == spec_valid_initial(consonants@),
{
    if consonants.len() == 0 {
        true
    } else if consonants.len() == 1 {
        let k = consonants[0];
        k == keys::B || k == keys::C || k == keys::D || k == keys::G || k == keys::H || k
            == keys::K || k == keys::L || k == keys::M || k == keys::N || k == keys::P || k
            == keys::Q || k == keys::R || k == keys::S || k == keys::T || k == keys::V || k
            == keys::X
    } else if consonants.len() == 2 {
        let a = consonants[0];
        let b = consonants[1];
        (a == keys::C && b == keys::H) || (a == keys::G && b == keys::H) || (a == keys::G && b
            == keys::I) || (a == keys::K && b == keys::H) || (a == keys::N && b == keys::G) || (a
            == keys::N && b == keys::H) || (a == keys::P && b == keys::H) || (a == keys::Q && b
            == keys::U) || (a == keys::T && b == keys::H) || (a == keys::T && b == keys::R)
    } else if consonants.len() == 3 {
        consonants[0] == keys::N && consonants[1] == keys::G && consonants[2] == keys::H
    } else {
        false
    }
}

/// A single key that may close a syllable: the stop and nasal consonants,
/// plus the glides `i`, `o`, `u`.
pub open spec fn spec_final_single(k: u16) -> bool {
    k == keys::C || k == keys::M || k == keys::N || k == keys::P || k == keys::T || k == keys::I
        || k == keys::O || k == keys::U
}

/// A two-key cluster that may close a syllable.
pub open spec fn spec_final_double(a: u16, b: u16) -> bool {
    (a == keys::C && b == keys::H) || (a == keys::N && b == keys::G) || (a == keys::N && b
        == keys::H)
}

/// The final consonant cluster is a valid Vietnamese coda (possibly empty).
pub open spec fn spec_valid_final(s: Seq<u16>) -> bool {
    if s.len() == 0 {
        true
    } else if s.len() == 1 {
        spec_final_single(s[0])
    } else if s.len() == 2 {
        spec_final_double(s[0], s[1])
    } else {
        false
    }
}

/// Check a final consonant cluster against the coda whitelist.
pub fn is_valid_final(consonants: &[u16]) -> (r: bool)
    ensures
        r == spec_valid_final(consonants@),
{
    if consonants.len() == 0 {
        true
    } else if consonants.len() == 1 {
        let k = consonants[0];
        k == keys::C || k == keys::M || k == keys::N || k == keys::P || k == keys::T || k
            == keys::I || k == keys::O || k == keys::U
    } else if consonants.len() == 2 {
        let a = consonants[0];
        let b = consonants[1];
        (a == keys::C && b == keys::H) || (a == keys::N && b == keys::G) || (a == keys::N && b
            == keys::H)
    } else {
        false
    }
}

/// A two-vowel key pattern on the nucleus whitelist.
pub open spec fn spec_diphthong(a: u16, b: u16) -> bool {
    (a == keys::A && (b == keys::I || b == keys::O || b == keys::U || b == keys::Y || b
        == keys::A)) || (a == keys::E && (b == keys::O || b == keys::U || b == keys::E || b
        == keys::I)) || (a == keys::I && (b == keys::A || b == keys::U || b == keys::E || b
        == keys::I || b == keys::O)) || (a == keys::O && (b == keys::I || b == keys::A || b
        == keys::E || b == keys::O || b == keys::U)) || (a == keys::U && (b == keys::I || b
        == keys::A || b == keys::U || b == keys::E || b == keys::Y || b == keys::O)) || (a
        == keys::Y && (b == keys::E || b == keys::U))
}

/// A three-vowel key pattern on the nucleus whitelist.
pub open spec fn spec_triphthong(a: u16, b: u16, c: u16) -> bool {
    (a == keys::I && b == keys::E && c == keys::U) || (a == keys::Y && b == keys::E && c
        == keys::U) || (a == keys::O && b == keys::A && c == keys::I) || (a == keys::O && b
        == keys::A && c == keys::Y) || (a == keys::O && b == keys::E && c == keys::O) || (a
        == keys::U && b == keys::A && c == keys::Y) || (a == keys::U && b == keys::O && c
        == keys::I) || (a == keys::U && b == keys::O && c == keys::U) || (a == keys::U && b
        == keys::Y && c == keys::E) || (a == keys::U && b == keys::Y && c == keys::A) || (a
        == keys::I && b == keys::U && c == keys::O)
}

/// The vowel keys form a valid nucleus: one vowel, a whitelisted diphthong,
/// or a whitelisted triphthong.
pub open spec fn spec_valid_vowel_pattern(s: Seq<u16>) -> bool {
    if s.len() == 0 {
        false
    } else if s.len() == 1 {
        true
    } else if s.len() == 2 {
        spec_diphthong(s[0], s[1])
    } else if s.len() == 3 {
        spec_triphthong(s[0], s[1], s[2])
    } else {
        false
    }
}

/// Check the vowel keys of a syllable against the nucleus whitelist.
pub fn is_valid_vowel_pattern(vowels: &[u16]) -> (r: bool)
    ensures
        r == spec_valid_vowel_pattern(vowels@),
{
    if vowels.len() == 0 {
        false
    } else if vowels.len() == 1 {
        true
    } else if vowels.len() == 2 {
        let a = vowels[0];
        let b = vowels[1];
        (a == keys::A && (b == keys::I || b == keys::O || b == keys::U || b == keys::Y || b
            == keys::A)) || (a == keys::E && (b == keys::O || b == keys::U || b == keys::E || b
            == keys::I)) || (a == keys::I && (b == keys::A || b == keys::U || b == keys::E || b
            == keys::I || b == keys::O)) || (a == keys::O && (b == keys::I || b == keys::A || b
            == keys::E || b == keys::O || b == keys::U)) || (a == keys::U && (b == keys::I || b
            == keys::A || b == keys::U || b == keys::E || b == keys::Y || b == keys::O)) || (a
            == keys::Y && (b == keys::E || b == keys::U))
    } else if vowels.len() == 3 {
        let a = vowels[0];
        let b = vowels[1];
        let c = vowels[2];
        (a == keys::I && b == keys::E && c == keys::U) || (a == keys::Y && b == keys::E && c
            == keys::U) || (a == keys::O && b == keys::A && c == keys::I) || (a == keys::O && b
            == keys::A && c == keys::Y) || (a == keys::O && b == keys::E && c == keys::O) || (a
            == keys::U && b == keys::A && c == keys::Y) || (a == keys::U && b == keys::O && c
            == keys::I) || (a == keys::U && b == keys::O && c == keys::U) || (a == keys::U && b
            == keys::Y && c == keys::E) || (a == keys::U && b == keys::Y && c == keys::A) || (a
            == keys::I && b == keys::U && c == keys::O)
    } else {
        false
    }
}

/// The spelling constraints on an onset and the first vowel key: `c` must
/// not precede `i`/`e`/`y`, `k` must not precede `a`/`o`/`u`, `g` and `ng`
/// must not precede `i`/`e`.
pub open spec fn spec_spelling_ok(initial: Seq<u16>, first_vowel: u16) -> bool {
    if initial.len() == 1 && initial[0] == keys::C {
        !(first_vowel == keys::I || first_vowel == keys::E || first_vowel == keys::Y)
    } else if initial.len() == 1 && initial[0] == keys::K {
        !(first_vowel == keys::A || first_vowel == keys::O || first_vowel == keys::U)
    } else if initial.len() == 1 && initial[0] == keys::G {
        !(first_vowel == keys::I || first_vowel == keys::E)
    } else if initial.len() == 2 && initial[0] == keys::N && initial[1] == keys::G {
        !(first_vowel == keys::I || first_vowel == keys::E)
    } else {
        true
    }
}

/// Check the spelling constraints on an onset and the first vowel key.
pub fn spelling_ok(initial: &[u16], first_vowel: u16) -> (r: bool)
    ensures
        r == spec_spelling_ok(initial@, first_vowel),
{
    if initial.len() == 1 && initial[0] == keys::C {
        !(first_vowel == keys::I || first_vowel == keys::E || first_vowel == keys::Y)
    } else if initial.len() == 1 && initial[0] == keys::K {
        !(first_vowel == keys::A || first_vowel == keys::O || first_vowel == keys::U)
    } else if initial.len() == 1 && initial[0] == keys::G {
        !(first_vowel == keys::I || first_vowel == keys::E)
    } else if initial.len() == 2 && initial[0] == keys::N && initial[1] == keys::G {
        !(first_vowel == keys::I || first_vowel == keys::E)
    } else {
        true
    }
}

} // verus!
