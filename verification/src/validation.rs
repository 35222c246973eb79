//! Syllable validation and foreign-word detection for the character engine.
//!
//! A word is lowercased, screened by an ordered foreign-word gate, parsed
//! into initial, vowel nucleus and final, and checked against the
//! phonotactic whitelists and spelling rules.

use vstd::prelude::*;
use crate::chars::{
    ToneMark, VowelMod, spec_decomp, spec_compose, spec_get_base, spec_is_vowel_char,
    spec_is_consonant_char,
};
use crate::transform::spec_get_modifier;
use crate::strings::chars_of_str;
use crate::unicode::{spec_lower_char, lower_char};

verus! {

/// How a word fares as a Vietnamese syllable.
#[derive(Debug, Clone, Copy, PartialEq, Eq, Structural)]
pub enum ValidationResult {
    Valid,
    InvalidInitial,
    InvalidFinal,
    InvalidSpelling,
    InvalidVowelPattern,
    NoVowel,
    ForeignWord,
}

impl ValidationResult {
    /// Whether the word passed every check.
    pub fn is_valid(&self) -> (r: bool)
        ensures
            r == (*self == ValidationResult::Valid),
    {
        *self == ValidationResult::Valid
    }
}

// ------------------------------------------------------------------
// Generic character-sequence helpers
// ------------------------------------------------------------------

/// The sequence lowercased character by character.
pub open spec fn spec_lower_seq(s: Seq<char>) -> Seq<char> {
    s.map_values(|c: char| spec_lower_char(c))
}

/// Lowercase a character vector.
pub fn lower_chars(v: &Vec<char>) -> (r: Vec<char>)
    ensures
        r@ == spec_lower_seq(v@),
{
    let mut r: Vec<char> = Vec::new();
    let mut i: usize = 0;
    while i < v.len()
        invariant
            i <= v@.len(),
            r@ == spec_lower_seq(v@).take(i as int),
        decreases v@.len() - i,
    {
        r.push(lower_char(v[i]));
        i += 1;
        proof {
            assert(r@ =~= spec_lower_seq(v@).take(i as int));
        }
    }
    proof {
        assert(spec_lower_seq(v@).take(v@.len() as int) =~= spec_lower_seq(v@));
    }
    r
}

pub open spec fn spec_starts1(s: Seq<char>, a: char) -> bool {
    s.len() >= 1 && s[0] == a
}

pub open spec fn spec_starts2(s: Seq<char>, a: char, b: char) -> bool {
    s.len() >= 2 && s[0] == a && s[1] == b
}

pub open spec fn spec_ends1(s: Seq<char>, a: char) -> bool {
    s.len() >= 1 && s[s.len() - 1] == a
}

pub open spec fn spec_ends2(s: Seq<char>, a: char, b: char) -> bool {
    s.len() >= 2 && s[s.len() - 2] == a && s[s.len() - 1] == b
}

pub open spec fn spec_ends3(s: Seq<char>, a: char, b: char, c: char) -> bool {
    s.len() >= 3 && s[s.len() - 3] == a && s[s.len() - 2] == b && s[s.len() - 1] == c
}

pub open spec fn spec_ends4(s: Seq<char>, a: char, b: char, c: char, d: char) -> bool {
    s.len() >= 4 && s[s.len() - 4] == a && s[s.len() - 3] == b && s[s.len() - 2] == c && s[s.len()
        - 1] == d
}

/// The first index where the two-character pattern occurs.
pub open spec fn spec_find2_from(s: Seq<char>, a: char, b: char, i: int) -> Option<int>
    decreases s.len() - i,
{
    if i < 0 || i + 1 >= s.len() {
        None
    } else if s[i] == a && s[i + 1] == b {
        Some(i)
    } else {
        spec_find2_from(s, a, b, i + 1)
    }
}

pub open spec fn spec_find2(s: Seq<char>, a: char, b: char) -> Option<int> {
    spec_find2_from(s, a, b, 0)
}

pub open spec fn spec_has2(s: Seq<char>, a: char, b: char) -> bool {
    spec_find2(s, a, b) is Some
}

/// The first index where the three-character pattern occurs.
pub open spec fn spec_find3_from(s: Seq<char>, a: char, b: char, c: char, i: int) -> Option<int>
    decreases s.len() - i,
{
    if i < 0 || i + 2 >= s.len() {
        None
    } else if s[i] == a && s[i + 1] == b && s[i + 2] == c {
        Some(i)
    } else {
        spec_find3_from(s, a, b, c, i + 1)
    }
}

pub open spec fn spec_find3(s: Seq<char>, a: char, b: char, c: char) -> Option<int> {
    spec_find3_from(s, a, b, c, 0)
}

pub open spec fn spec_has3(s: Seq<char>, a: char, b: char, c: char) -> bool {
    spec_find3(s, a, b, c) is Some
}

fn find2(v: &Vec<char>, a: char, b: char) -> (r: Option<usize>)
    ensures
        match r {
            Some(p) => spec_find2(v@, a, b) == Some(p as int) && p + 1 < v@.len(),
            None => spec_find2(v@, a, b) is None,
        },
{
    let n = v.len();
    if n < 2 {
        return None;
    }
    let mut i: usize = 0;
    while i < n - 1
        invariant
            i <= n - 1,
            n >= 2,
            n == v@.len(),
            spec_find2(v@, a, b) == spec_find2_from(v@, a, b, i as int),
        decreases n - i,
    {
        if v[i] == a && v[i + 1] == b {
            return Some(i);
        }
        i += 1;
    }
    None
}

fn has2(v: &Vec<char>, a: char, b: char) -> (r: bool)
    ensures
        r == spec_has2(v@, a, b),
{
    let f = find2(v, a, b);
    f.is_some()
}

fn find3(v: &Vec<char>, a: char, b: char, c: char) -> (r: Option<usize>)
    ensures
        match r {
            Some(p) => spec_find3(v@, a, b, c) == Some(p as int) && p + 2 < v@.len(),
            None => spec_find3(v@, a, b, c) is None,
        },
{
    let n = v.len();
    if n < 3 {
        return None;
    }
    let mut i: usize = 0;
    while i < n - 2
        invariant
            i <= n - 2,
            n >= 3,
            n == v@.len(),
            spec_find3(v@, a, b, c) == spec_find3_from(v@, a, b, c, i as int),
        decreases n - i,
    {
        if v[i] == a && v[i + 1] == b && v[i + 2] == c {
            return Some(i);
        }
        i += 1;
    }
    None
}

fn has3(v: &Vec<char>, a: char, b: char, c: char) -> (r: bool)
    ensures
        r == spec_has3(v@, a, b, c),
{
    let f = find3(v, a, b, c);
    f.is_some()
}

fn starts1(v: &Vec<char>, a: char) -> (r: bool)
    ensures
        r == spec_starts1(v@, a),
{
    v.len() >= 1 && v[0] == a
}

fn starts2(v: &Vec<char>, a: char, b: char) -> (r: bool)
    ensures
        r == spec_starts2(v@, a, b),
{
    v.len() >= 2 && v[0] == a && v[1] == b
}

fn ends1(v: &Vec<char>, a: char) -> (r: bool)
    ensures
        r == spec_ends1(v@, a),
{
    v.len() >= 1 && v[v.len() - 1] == a
}

fn ends2(v: &Vec<char>, a: char, b: char) -> (r: bool)
    ensures
        r == spec_ends2(v@, a, b),
{
    v.len() >= 2 && v[v.len() - 2] == a && v[v.len() - 1] == b
}

fn ends3(v: &Vec<char>, a: char, b: char, c: char) -> (r: bool)
    ensures
        r == spec_ends3(v@, a, b, c),
{
    v.len() >= 3 && v[v.len() - 3] == a && v[v.len() - 2] == b && v[v.len() - 1] == c
}

fn ends4(v: &Vec<char>, a: char, b: char, c: char, d: char) -> (r: bool)
    ensures
        r == spec_ends4(v@, a, b, c, d),
{
    v.len() >= 4 && v[v.len() - 4] == a && v[v.len() - 3] == b && v[v.len() - 2] == c && v[v.len()
        - 1] == d
}

// ------------------------------------------------------------------
// Word-level predicates
// ------------------------------------------------------------------

/// Whether any character of the sequence is a vowel.
pub open spec fn spec_has_vowel(s: Seq<char>) -> bool {
    exists|i: int| 0 <= i < s.len() && spec_is_vowel_char(s[i])
}

fn has_vowel(v: &Vec<char>) -> (r: bool)
    ensures
        r == spec_has_vowel(v@),
{
    let mut i: usize = 0;
    while i < v.len()
        invariant
            i <= v@.len(),
            forall|j: int| 0 <= j < i ==> !spec_is_vowel_char(v@[j]),
        decreases v@.len() - i,
    {
        if crate::chars::is_vowel(v[i]) {
            return true;
        }
        i += 1;
    }
    false
}

/// Whether the (lowercased) word already carries a Vietnamese diacritic:
/// a shape modifier, a tone mark, or the stroked `đ`.
pub open spec fn spec_has_viet_diacritics(s: Seq<char>) -> bool {
    exists|i: int|
        0 <= i < s.len() && (match spec_decomp(s[i]) {
            Some(vc) => vc.modifier != VowelMod::Plain || vc.tone != ToneMark::Level,
            None => false,
        } || s[i] == 'đ')
}

fn has_viet_diacritics(v: &Vec<char>) -> (r: bool)
    ensures
        r == spec_has_viet_diacritics(v@),
{
    let mut i: usize = 0;
    while i < v.len()
        invariant
            i <= v@.len(),
            forall|j: int|
                0 <= j < i ==> !(match spec_decomp(v@[j]) {
                    Some(vc) => vc.modifier != VowelMod::Plain || vc.tone != ToneMark::Level,
                    None => false,
                } || v@[j] == 'đ'),
        decreases v@.len() - i,
    {
        let c = v[i];
        let hit = match crate::chars::decomp(c) {
            Some(vc) => vc.modifier != VowelMod::Plain || vc.tone != ToneMark::Level,
            None => false,
        };
        if hit || c == 'đ' {
            return true;
        }
        i += 1;
    }
    false
}

/// A raw sequence that looks foreign but is a normal way of typing
/// Vietnamese: `do` followed by another `d`, or a consonant-vowel pair
/// typed twice.
pub open spec fn spec_valid_typing_sequence(s: Seq<char>) -> bool {
    (s.len() >= 3 && s[0] == 'd' && s[1] == 'o' && s[2] == 'd') || (s.len() >= 4 && s[0] == s[2]
        && s[1] == s[3] && !spec_is_vowel_char(s[0]) && spec_is_vowel_char(s[1]))
}

fn is_valid_typing_sequence(v: &Vec<char>) -> (r: bool)
    ensures
        r == spec_valid_typing_sequence(v@),
{
    (v.len() >= 3 && v[0] == 'd' && v[1] == 'o' && v[2] == 'd') || (v.len() >= 4 && v[0] == v[2]
        && v[1] == v[3] && !crate::chars::is_vowel(v[0]) && crate::chars::is_vowel(v[1]))
}

/// Whether a key is one of the Telex tone keys.
pub open spec fn spec_is_tone_modifier(c: char) -> bool {
    c == 's' || c == 'f' || c == 'r' || c == 'x' || c == 'j'
}

fn is_tone_modifier(c: char) -> (r: bool)
    ensures
        r == spec_is_tone_modifier(c),
{
    c == 's' || c == 'f' || c == 'r' || c == 'x' || c == 'j'
}

/// A foreign consonant cluster found at the start of the word, or right
/// after a vowel.
pub open spec fn spec_cluster_hit2(s: Seq<char>, a: char, b: char) -> bool {
    match spec_find2(s, a, b) {
        Some(p) => p == 0 || spec_is_vowel_char(s[p - 1]),
        None => false,
    }
}

fn cluster_hit2(v: &Vec<char>, a: char, b: char) -> (r: bool)
    ensures
        r == spec_cluster_hit2(v@, a, b),
{
    match find2(v, a, b) {
        Some(p) => p == 0 || crate::chars::is_vowel(v[p - 1]),
        None => false,
    }
}

pub open spec fn spec_cluster_hit3(s: Seq<char>, a: char, b: char, c: char) -> bool {
    match spec_find3(s, a, b, c) {
        Some(p) => p == 0 || spec_is_vowel_char(s[p - 1]),
        None => false,
    }
}

fn cluster_hit3(v: &Vec<char>, a: char, b: char, c: char) -> (r: bool)
    ensures
        r == spec_cluster_hit3(v@, a, b, c),
{
    match find3(v, a, b, c) {
        Some(p) => p == 0 || crate::chars::is_vowel(v[p - 1]),
        None => false,
    }
}

/// The foreign cluster scan used while typing: a cluster counts when it
/// opens the word or follows a vowel; a word-initial `tr` is the
/// Vietnamese onset and is exempt.
pub open spec fn spec_foreign_cluster_scan(s: Seq<char>) -> bool {
    (spec_has2(s, 't', 'r') && !spec_starts2(s, 't', 'r') && spec_cluster_hit2(s, 't', 'r'))
        || spec_cluster_hit2(s, 'p', 'r') || spec_cluster_hit2(s, 'c', 'r') || spec_cluster_hit2(
        s,
        'b',
        'r',
    ) || spec_cluster_hit2(s, 'd', 'r') || spec_cluster_hit2(s, 'g', 'r') || spec_cluster_hit2(
        s,
        'f',
        'r',
    ) || spec_cluster_hit2(s, 's', 't') || spec_cluster_hit2(s, 's', 'p') || spec_cluster_hit2(
        s,
        's',
        'c',
    ) || spec_cluster_hit2(s, 's', 'k') || spec_cluster_hit2(s, 's', 'm') || spec_cluster_hit2(
        s,
        's',
        'n',
    ) || spec_cluster_hit2(s, 's', 'l') || spec_cluster_hit2(s, 's', 'w') || spec_cluster_hit2(
        s,
        'b',
        'l',
    ) || spec_cluster_hit2(s, 'c', 'l') || spec_cluster_hit2(s, 'f', 'l') || spec_cluster_hit2(
        s,
        'g',
        'l',
    ) || spec_cluster_hit2(s, 'p', 'l') || spec_cluster_hit2(s, 'c', 'k') || spec_cluster_hit2(
        s,
        'd',
        'g',
    ) || spec_cluster_hit3(s, 'g', 'h', 't') || spec_cluster_hit2(s, 'w', 'h')
        || spec_cluster_hit2(s, 'w', 'r')
}

fn foreign_cluster_scan(v: &Vec<char>) -> (r: bool)
    ensures
        r == spec_foreign_cluster_scan(v@),
{
    (has2(v, 't', 'r') && !starts2(v, 't', 'r') && cluster_hit2(v, 't', 'r')) || cluster_hit2(
        v,
        'p',
        'r',
    ) || cluster_hit2(v, 'c', 'r') || cluster_hit2(v, 'b', 'r') || cluster_hit2(v, 'd', 'r')
        || cluster_hit2(v, 'g', 'r') || cluster_hit2(v, 'f', 'r') || cluster_hit2(v, 's', 't')
        || cluster_hit2(v, 's', 'p') || cluster_hit2(v, 's', 'c') || cluster_hit2(v, 's', 'k')
        || cluster_hit2(v, 's', 'm') || cluster_hit2(v, 's', 'n') || cluster_hit2(v, 's', 'l')
        || cluster_hit2(v, 's', 'w') || cluster_hit2(v, 'b', 'l') || cluster_hit2(v, 'c', 'l')
        || cluster_hit2(v, 'f', 'l') || cluster_hit2(v, 'g', 'l') || cluster_hit2(v, 'p', 'l')
        || cluster_hit2(v, 'c', 'k') || cluster_hit2(v, 'd', 'g') || cluster_hit3(v, 'g', 'h', 't')
        || cluster_hit2(v, 'w', 'h') || cluster_hit2(v, 'w', 'r')
}

/// A vowel pair Vietnamese never writes.
pub open spec fn spec_invalid_vowel_pair(s: Seq<char>) -> bool {
    spec_has2(s, 'e', 'ư') || spec_has2(s, 'o', 'ư') || spec_has2(s, 'i', 'ư') || spec_has2(
        s,
        'ư',
        'e',
    ) || spec_has2(s, 'ư', 'o') || spec_has2(s, 'ư', 'y') || spec_has2(s, 'o', 'u') || spec_has2(
        s,
        'y',
        'o',
    ) || spec_has2(s, 'e', 'a') || spec_has2(s, 'e', 'i')
}

fn invalid_vowel_pair(v: &Vec<char>) -> (r: bool)
    ensures
        r == spec_invalid_vowel_pair(v@),
{
    has2(v, 'e', 'ư') || has2(v, 'o', 'ư') || has2(v, 'i', 'ư') || has2(v, 'ư', 'e') || has2(
        v,
        'ư',
        'o',
    ) || has2(v, 'ư', 'y') || has2(v, 'o', 'u') || has2(v, 'y', 'o') || has2(v, 'e', 'a') || has2(
        v,
        'e',
        'i',
    )
}

/// The per-key foreign-word heuristic, over the lowercased word and the
/// pending key.
pub open spec fn spec_foreign_word_pattern(low: Seq<char>, modifier_key: Option<char>) -> bool {
    if spec_has_viet_diacritics(low) {
        false
    } else if spec_valid_typing_sequence(low) {
        false
    } else {
        let n = low.len();
        // A tone key arriving after a consonant cluster (sonorant endings
        // excepted) betrays English.
        let p1 = match modifier_key {
            Some(mk) => spec_is_tone_modifier(mk) && n >= 2 && !(low[n - 1] == 'm' || low[n - 1]
                == 'n') && spec_is_consonant_char(low[n - 1]) && spec_is_consonant_char(low[n - 2]),
            None => false,
        };
        // A leading w before a consonant other than h.
        let p2 = spec_starts1(low, 'w') && n > 1 && spec_is_consonant_char(low[1]) && low[1] != 'h';
        // The ei pair does not exist in Vietnamese.
        let p3 = spec_has2(low, 'e', 'i');
        // A leading p (without h) together with ai.
        let p4 = spec_starts1(low, 'p') && !spec_starts2(low, 'p', 'h') && spec_has2(low, 'a', 'i');
        // A trailing w.
        let p5 = spec_ends1(low, 'w');
        // A leading f.
        let p6 = spec_starts1(low, 'f');
        // A tone key with a trailing k, outside the ethnic-minority prefixes.
        let p7 = (match modifier_key {
            Some(mk) => spec_is_tone_modifier(mk),
            None => false,
        }) && spec_ends1(low, 'k') && !(n >= 1 && (low[0] == 'đ' || low[0] == 'l' || low[0]
            == 'b'));
        // A double o followed by a consonant.
        let p8 = n > 2 && (match spec_find2(low, 'o', 'o') {
            Some(p) => p + 2 < n && spec_is_consonant_char(low[p + 2]),
            None => false,
        });
        // An impossible vowel pair, a foreign cluster, an English prefix or
        // suffix.
        let extra = spec_invalid_vowel_pair(low) || spec_foreign_cluster_scan(low) || (spec_starts2(
            low,
            'd',
            'e',
        ) && modifier_key == Some('s') && n > 3) || (spec_starts2(low, 'p', 'r') && n > 3) || (
        spec_ends4(low, 't', 'i', 'o', 'n') || spec_ends4(low, 's', 'i', 'o', 'n'));
        p1 || p2 || p3 || p4 || p5 || p6 || p7 || p8 || extra
    }
}

/// Check whether a buffer, together with the key about to be processed,
/// matches one of the foreign-word typing patterns.  Words that already
/// carry Vietnamese diacritics, and recognised Vietnamese typing sequences,
/// never match.
pub fn is_foreign_word_pattern(buffer: &str, modifier_key: Option<char>) -> (r: bool)
    ensures
        r == spec_foreign_word_pattern(spec_lower_seq(buffer@), modifier_key),
{
    let chars = chars_of_str(buffer);
    let low = lower_chars(&chars);
    foreign_word_pattern_chars(&low, modifier_key)
}

/// The same heuristic over an already lowercased character vector.
pub fn foreign_word_pattern_chars(low: &Vec<char>, modifier_key: Option<char>) -> (r: bool)
    ensures
        r == spec_foreign_word_pattern(low@, modifier_key),
{
    proof {
        reveal(spec_foreign_word_pattern);
    }
    if has_viet_diacritics(low) {
        return false;
    }
    if is_valid_typing_sequence(low) {
        return false;
    }
    let n = low.len();
    let p1 = match modifier_key {
        Some(mk) => is_tone_modifier(mk) && n >= 2 && !(low[n - 1] == 'm' || low[n - 1] == 'n')
            && crate::chars::is_consonant(low[n - 1]) && crate::chars::is_consonant(low[n - 2]),
        None => false,
    };
    if p1 {
        return true;
    }
    if starts1(low, 'w') && n > 1 && crate::chars::is_consonant(low[1]) && low[1] != 'h' {
        return true;
    }
    if has2(low, 'e', 'i') {
        return true;
    }
    if starts1(low, 'p') && !starts2(low, 'p', 'h') && has2(low, 'a', 'i') {
        return true;
    }
    if ends1(low, 'w') {
        return true;
    }
    if starts1(low, 'f') {
        return true;
    }
    let has_tone_key = match modifier_key {
        Some(mk) => is_tone_modifier(mk),
        None => false,
    };
    if has_tone_key && ends1(low, 'k') && !(n >= 1 && (low[0] == 'đ' || low[0] == 'l' || low[0]
        == 'b')) {
        return true;
    }
    if n > 2 {
        match find2(low, 'o', 'o') {
            Some(p) => {
                if p + 2 < n && crate::chars::is_consonant(low[p + 2]) {
                    return true;
                }
            },
            None => (),
        }
    }
    if invalid_vowel_pair(low) {
        return true;
    }
    if foreign_cluster_scan(low) {
        return true;
    }
    if starts2(low, 'd', 'e') && modifier_key == Some('s') && n > 3 {
        return true;
    }
    if starts2(low, 'p', 'r') && n > 3 {
        return true;
    }
    if ends4(low, 't', 'i', 'o', 'n') || ends4(low, 's', 'i', 'o', 'n') {
        return true;
    }
    false
}


/// A whole token on the English denylist.
pub open spec fn spec_english_keyword(s: Seq<char>) -> bool {
    (s =~= seq!['h', 'e', 'l', 'l', 'o']) || (s =~= seq!['w', 'o', 'r', 'l', 'd']) || (s =~= seq![
        'w',
        'o',
        'u',
        'l',
        'd',
    ]) || (s =~= seq!['c', 'o', 'u', 'l', 'd']) || (s =~= seq!['s', 'h', 'o', 'u', 'l', 'd']) || (s
        =~= seq!['a', 'b', 'o', 'u', 't']) || (s =~= seq!['t', 'h', 'e', 'i', 'r']) || (s =~= seq![
        't',
        'h',
        'e',
        'r',
        'e',
    ]) || (s =~= seq!['w', 'h', 'i', 'c', 'h']) || (s =~= seq!['w', 'h', 'i', 'l', 'e']) || (s =~=
    seq!['p', 'l', 'e', 'a', 's', 'e']) || (s =~= seq!['t', 'h', 'a', 'n', 'k', 's'])
}

fn eq5(v: &Vec<char>, a: char, b: char, c: char, d: char, e: char) -> (r: bool)
    ensures
        r == (v@ =~= seq![a, b, c, d, e]),
{
    let hit = v.len() == 5 && v[0] == a && v[1] == b && v[2] == c && v[3] == d && v[4] == e;
    proof {
        if hit {
            assert(v@ =~= seq![a, b, c, d, e]);
        }
    }
    hit
}

fn eq6(v: &Vec<char>, a: char, b: char, c: char, d: char, e: char, f: char) -> (r: bool)
    ensures
        r == (v@ =~= seq![a, b, c, d, e, f]),
{
    let hit = v.len() == 6 && v[0] == a && v[1] == b && v[2] == c && v[3] == d && v[4] == e && v[5]
        == f;
    proof {
        if hit {
            assert(v@ =~= seq![a, b, c, d, e, f]);
        }
    }
    hit
}

fn english_keyword(v: &Vec<char>) -> (r: bool)
    ensures
        r == spec_english_keyword(v@),
{
    eq5(v, 'h', 'e', 'l', 'l', 'o') || eq5(v, 'w', 'o', 'r', 'l', 'd') || eq5(
        v,
        'w',
        'o',
        'u',
        'l',
        'd',
    ) || eq5(v, 'c', 'o', 'u', 'l', 'd') || eq6(v, 's', 'h', 'o', 'u', 'l', 'd') || eq5(
        v,
        'a',
        'b',
        'o',
        'u',
        't',
    ) || eq5(v, 't', 'h', 'e', 'i', 'r') || eq5(v, 't', 'h', 'e', 'r', 'e') || eq5(
        v,
        'w',
        'h',
        'i',
        'c',
        'h',
    ) || eq5(v, 'w', 'h', 'i', 'l', 'e') || eq6(v, 'p', 'l', 'e', 'a', 's', 'e') || eq6(
        v,
        't',
        'h',
        'a',
        'n',
        'k',
        's',
    )
}

/// A programming identifier, judged on the word as typed: a lowercase
/// letter followed by an uppercase one, an underscore anywhere, or a digit
/// after the first character.
pub open spec fn spec_prog_identifier(s: Seq<char>) -> bool {
    (exists|i: int|
        0 <= i && i + 1 < s.len() && 'a' <= #[trigger] s[i] <= 'z' && 'A' <= s[i + 1] <= 'Z') || (
    exists|i: int| 0 <= i < s.len() && #[trigger] s[i] == '_') || (exists|i: int|
        0 < i < s.len() && '0' <= #[trigger] s[i] <= '9')
}

fn prog_identifier(v: &Vec<char>) -> (r: bool)
    ensures
        r == spec_prog_identifier(v@),
{
    let mut i: usize = 0;
    while i < v.len()
        invariant
            i <= v@.len(),
            forall|j: int|
                0 <= j < i ==> !(j + 1 < v@.len() && 'a' <= #[trigger] v@[j] <= 'z' && 'A' <= v@[j
                    + 1] <= 'Z'),
            forall|j: int| 0 <= j < i ==> #[trigger] v@[j] != '_',
            forall|j: int| 0 < j < i ==> !('0' <= #[trigger] v@[j] <= '9'),
        decreases v@.len() - i,
    {
        let c = v[i];
        if i + 1 < v.len() && 'a' <= c && c <= 'z' && 'A' <= v[i + 1] && v[i + 1] <= 'Z' {
            return true;
        }
        if c == '_' {
            return true;
        }
        if i > 0 && '0' <= c && c <= '9' {
            return true;
        }
        i += 1;
    }
    false
}

/// Whether any character matches the predicate used for the trailing
/// double-consonant rule.
pub open spec fn spec_double_consonant(s: Seq<char>) -> bool {
    exists|i: int| 0 <= i && i + 1 < s.len() && s[i] == s[i + 1] && spec_is_consonant_char(s[i])
}

fn double_consonant(v: &Vec<char>) -> (r: bool)
    ensures
        r == spec_double_consonant(v@),
{
    let mut i: usize = 0;
    while i < v.len()
        invariant
            i <= v@.len(),
            forall|j: int|
                0 <= j < i ==> !(j + 1 < v@.len() && v@[j] == v@[j + 1] && spec_is_consonant_char(
                    v@[j],
                )),
        decreases v@.len() - i,
    {
        if i + 1 < v.len() && v[i] == v[i + 1] && crate::chars::is_consonant(v[i]) {
            return true;
        }
        i += 1;
    }
    false
}

/// Whether any character equals `z`.
pub open spec fn spec_contains_char(s: Seq<char>, c: char) -> bool {
    exists|i: int| 0 <= i < s.len() && s[i] == c
}

fn contains_char(v: &Vec<char>, c: char) -> (r: bool)
    ensures
        r == spec_contains_char(v@, c),
{
    let mut i: usize = 0;
    while i < v.len()
        invariant
            i <= v@.len(),
            forall|j: int| 0 <= j < i ==> v@[j] != c,
        decreases v@.len() - i,
    {
        if v[i] == c {
            return true;
        }
        i += 1;
    }
    false
}

/// The full foreign-word gate of the validator, over the original word
/// (`s`) and its lowercased form (`low`).  Words that carry Vietnamese
/// diacritics pass unquestioned.  The denylist, the identifier shapes,
/// the per-key patterns, the foreign clusters, and the English prefix and
/// suffix rules each reject.
pub open spec fn spec_foreign_gate(s: Seq<char>, low: Seq<char>) -> bool {
    if spec_has_viet_diacritics(low) {
        false
    } else {
        let n = low.len();
        spec_english_keyword(low) || spec_prog_identifier(s) || (spec_starts1(low, 'w') && n > 1
            && spec_is_consonant_char(low[1]) && low[1] != 'h') || spec_has2(low, 'e', 'i') || (
        spec_starts1(low, 'p') && !spec_starts2(low, 'p', 'h') && spec_has2(low, 'a', 'i')) || (
        spec_ends1(low, 'w')) || spec_starts1(low, 'f') || (n > 2 && (match spec_find2(
            low,
            'o',
            'o',
        ) {
            Some(p) => p + 2 < n && spec_is_consonant_char(low[p + 2]) && !(low[p + 2] == 'n' && p
                + 3 < n && low[p + 3] == 'g'),
            None => false,
        })) || spec_starts2(low, 'e', 'x') || spec_foreign_cluster_scan(low) || (spec_starts2(
            low,
            'p',
            'r',
        ) && n > 3) || spec_ends4(low, 't', 'i', 'o', 'n') || spec_ends4(low, 's', 'i', 'o', 'n')
            || spec_has2(low, 'y', 'o') || spec_has2(low, 'o', 'u') || spec_starts1(low, 'j')
            || spec_contains_char(low, 'z') || spec_ends2(low, 't', 'h') || spec_ends3(
            low,
            'g',
            'h',
            't',
        ) || spec_ends2(low, 's', 'h') || spec_ends3(low, 't', 'c', 'h') || spec_ends3(
            low,
            'i',
            'n',
            'g',
        ) || spec_ends2(low, 'l', 'y') || (spec_ends2(low, 'e', 'd') && n >= 3
            && spec_is_consonant_char(low[n - 3])) || spec_double_consonant(low)
    }
}

fn foreign_gate(s: &Vec<char>, low: &Vec<char>) -> (r: bool)
    ensures
        r == spec_foreign_gate(s@, low@),
{
    if has_viet_diacritics(low) {
        return false;
    }
    let n = low.len();
    if english_keyword(low) {
        return true;
    }
    if prog_identifier(s) {
        return true;
    }
    if starts1(low, 'w') && n > 1 && crate::chars::is_consonant(low[1]) && low[1] != 'h' {
        return true;
    }
    if has2(low, 'e', 'i') {
        return true;
    }
    if starts1(low, 'p') && !starts2(low, 'p', 'h') && has2(low, 'a', 'i') {
        return true;
    }
    if ends1(low, 'w') {
        return true;
    }
    if starts1(low, 'f') {
        return true;
    }
    if n > 2 {
        match find2(low, 'o', 'o') {
            Some(p) => {
                if p + 2 < n && crate::chars::is_consonant(low[p + 2]) && !(low[p + 2] == 'n' && p
                    + 3 < n && low[p + 3] == 'g') {
                    return true;
                }
            },
            None => (),
        }
    }
    if starts2(low, 'e', 'x') {
        return true;
    }
    if foreign_cluster_scan(low) {
        return true;
    }
    if starts2(low, 'p', 'r') && n > 3 {
        return true;
    }
    if ends4(low, 't', 'i', 'o', 'n') || ends4(low, 's', 'i', 'o', 'n') {
        return true;
    }
    if has2(low, 'y', 'o') || has2(low, 'o', 'u') {
        return true;
    }
    if starts1(low, 'j') || contains_char(low, 'z') {
        return true;
    }
    if ends2(low, 't', 'h') || ends3(low, 'g', 'h', 't') || ends2(low, 's', 'h') || ends3(
        low,
        't',
        'c',
        'h',
    ) || ends3(low, 'i', 'n', 'g') || ends2(low, 'l', 'y') {
        return true;
    }
    if ends2(low, 'e', 'd') && n >= 3 && crate::chars::is_consonant(low[n - 3]) {
        return true;
    }
    if double_consonant(low) {
        return true;
    }
    false
}

// ------------------------------------------------------------------
// Syllable parsing
// ------------------------------------------------------------------

/// A valid syllable onset, over lowercased characters.
pub open spec fn spec_valid_initial_chars(s: Seq<char>) -> bool {
    if s.len() == 0 {
        true
    } else if s.len() == 1 {
        let c = s[0];
        c == 'b' || c == 'c' || c == 'd' || c == 'đ' || c == 'g' || c == 'h' || c == 'k' || c == 'l'
            || c == 'm' || c == 'n' || c == 'p' || c == 'q' || c == 'r' || c == 's' || c == 't' || c
            == 'v' || c == 'x'
    } else if s.len() == 2 {
        let a = s[0];
        let b = s[1];
        (a == 'c' && b == 'h') || (a == 'g' && b == 'h') || (a == 'g' && b == 'i') || (a == 'k' && b
            == 'h') || (a == 'n' && b == 'g') || (a == 'n' && b == 'h') || (a == 'p' && b == 'h')
            || (a == 't' && b == 'h') || (a == 't' && b == 'r') || (a == 'q' && b == 'u')
    } else if s.len() == 3 {
        s[0] == 'n' && s[1] == 'g' && s[2] == 'h'
    } else {
        false
    }
}

/// A valid syllable coda, over lowercased characters.
pub open spec fn spec_valid_final_chars(s: Seq<char>) -> bool {
    if s.len() == 0 {
        true
    } else if s.len() == 1 {
        let c = s[0];
        c == 'c' || c == 'm' || c == 'n' || c == 'p' || c == 't' || c == 'k'
    } else if s.len() == 2 {
        let a = s[0];
        let b = s[1];
        (a == 'c' && b == 'h') || (a == 'n' && b == 'g') || (a == 'n' && b == 'h')
    } else {
        false
    }
}

/// A glide letter that may sit in the vowel part.
pub open spec fn spec_is_glide(c: char) -> bool {
    c == 'y' || c == 'w'
}

/// Every character of the sequence is a vowel or a glide.
pub open spec fn spec_all_vowelish(s: Seq<char>) -> bool {
    forall|i: int| 0 <= i < s.len() ==> spec_is_vowel_char(s[i]) || spec_is_glide(s[i])
}

fn all_vowelish(v: &Vec<char>, from: usize, to: usize) -> (r: bool)
    requires
        from <= to <= v@.len(),
    ensures
        r == spec_all_vowelish(v@.subrange(from as int, to as int)),
{
    let mut i: usize = from;
    while i < to
        invariant
            from <= i <= to <= v@.len(),
            forall|j: int| from <= j < i ==> spec_is_vowel_char(v@[j]) || spec_is_glide(v@[j]),
        decreases to - i,
    {
        let c = v[i];
        if !crate::chars::is_vowel(c) && !(c == 'y' || c == 'w') {
            proof {
                assert(v@.subrange(from as int, to as int)[i - from] == v@[i as int]);
            }
            return false;
        }
        i += 1;
    }
    proof {
        assert forall|j: int| 0 <= j < to - from implies spec_is_vowel_char(
            v@.subrange(from as int, to as int)[j],
        ) || spec_is_glide(v@.subrange(from as int, to as int)[j]) by {
            assert(v@.subrange(from as int, to as int)[j] == v@[from + j]);
        }
    }
    true
}

/// Split the residue after the onset into vowel nucleus and coda, trying
/// the longest valid coda first; the vowel part must be nonempty and made
/// of vowels and glides.
pub open spec fn spec_parse_vowel_final(s: Seq<char>) -> Option<(Seq<char>, Seq<char>)> {
    if s.len() == 0 {
        None
    } else {
        let n = s.len() as int;
        if n >= 2 && spec_valid_final_chars(s.subrange(n - 2, n)) && n - 2 > 0 && spec_all_vowelish(
            s.subrange(0, n - 2),
        ) {
            Some((s.subrange(0, n - 2), s.subrange(n - 2, n)))
        } else if n >= 1 && spec_valid_final_chars(s.subrange(n - 1, n)) && n - 1 > 0
            && spec_all_vowelish(s.subrange(0, n - 1)) {
            Some((s.subrange(0, n - 1), s.subrange(n - 1, n)))
        } else if spec_all_vowelish(s) {
            Some((s, Seq::empty()))
        } else {
            None
        }
    }
}

/// Parse a lowercased word into onset, nucleus and coda, trying the longest
/// valid onset first and falling back to shorter ones when the residue does
/// not split.
pub open spec fn spec_parse_syllable(s: Seq<char>) -> Option<(Seq<char>, Seq<char>, Seq<char>)> {
    let n = s.len() as int;
    if n >= 3 && spec_valid_initial_chars(s.subrange(0, 3)) && spec_parse_vowel_final(
        s.subrange(3, n),
    ) is Some {
        let vf = spec_parse_vowel_final(s.subrange(3, n))->Some_0;
        Some((s.subrange(0, 3), vf.0, vf.1))
    } else if n >= 2 && spec_valid_initial_chars(s.subrange(0, 2)) && spec_parse_vowel_final(
        s.subrange(2, n),
    ) is Some {
        let vf = spec_parse_vowel_final(s.subrange(2, n))->Some_0;
        Some((s.subrange(0, 2), vf.0, vf.1))
    } else if n >= 1 && spec_valid_initial_chars(s.subrange(0, 1)) && spec_parse_vowel_final(
        s.subrange(1, n),
    ) is Some {
        let vf = spec_parse_vowel_final(s.subrange(1, n))->Some_0;
        Some((s.subrange(0, 1), vf.0, vf.1))
    } else if spec_parse_vowel_final(s) is Some {
        let vf = spec_parse_vowel_final(s)->Some_0;
        Some((Seq::empty(), vf.0, vf.1))
    } else {
        None
    }
}

fn copy_range(v: &Vec<char>, from: usize, to: usize) -> (r: Vec<char>)
    requires
        from <= to <= v@.len(),
    ensures
        r@ == v@.subrange(from as int, to as int),
{
    let mut r: Vec<char> = Vec::new();
    let mut i: usize = from;
    while i < to
        invariant
            from <= i <= to <= v@.len(),
            r@ == v@.subrange(from as int, i as int),
        decreases to - i,
    {
        r.push(v[i]);
        i += 1;
        proof {
            assert(r@ =~= v@.subrange(from as int, i as int));
        }
    }
    r
}

fn valid_initial_chars(v: &Vec<char>, upto: usize) -> (r: bool)
    requires
        upto <= v@.len(),
    ensures
        r == spec_valid_initial_chars(v@.subrange(0, upto as int)),
{
    if upto == 0 {
        true
    } else if upto == 1 {
        let c = v[0];
        proof {
            assert(v@.subrange(0, 1)[0] == v@[0]);
        }
        c == 'b' || c == 'c' || c == 'd' || c == 'đ' || c == 'g' || c == 'h' || c == 'k' || c == 'l'
            || c == 'm' || c == 'n' || c == 'p' || c == 'q' || c == 'r' || c == 's' || c == 't' || c
            == 'v' || c == 'x'
    } else if upto == 2 {
        let a = v[0];
        let b = v[1];
        proof {
            assert(v@.subrange(0, 2)[0] == v@[0] && v@.subrange(0, 2)[1] == v@[1]);
        }
        (a == 'c' && b == 'h') || (a == 'g' && b == 'h') || (a == 'g' && b == 'i') || (a == 'k' && b
            == 'h') || (a == 'n' && b == 'g') || (a == 'n' && b == 'h') || (a == 'p' && b == 'h')
            || (a == 't' && b == 'h') || (a == 't' && b == 'r') || (a == 'q' && b == 'u')
    } else if upto == 3 {
        proof {
            assert(v@.subrange(0, 3)[0] == v@[0] && v@.subrange(0, 3)[1] == v@[1] && v@.subrange(
                0,
                3,
            )[2] == v@[2]);
        }
        v[0] == 'n' && v[1] == 'g' && v[2] == 'h'
    } else {
        false
    }
}

fn valid_final_chars_range(v: &Vec<char>, from: usize) -> (r: bool)
    requires
        from <= v@.len(),
    ensures
        r == spec_valid_final_chars(v@.subrange(from as int, v@.len() as int)),
{
    let n = v.len();
    let k = n - from;
    if k == 0 {
        true
    } else if k == 1 {
        let c = v[from];
        proof {
            assert(v@.subrange(from as int, n as int)[0] == v@[from as int]);
        }
        c == 'c' || c == 'm' || c == 'n' || c == 'p' || c == 't' || c == 'k'
    } else if k == 2 {
        let a = v[from];
        let b = v[from + 1];
        proof {
            assert(v@.subrange(from as int, n as int)[0] == v@[from as int]);
            assert(v@.subrange(from as int, n as int)[1] == v@[from + 1]);
        }
        (a == 'c' && b == 'h') || (a == 'n' && b == 'g') || (a == 'n' && b == 'h')
    } else {
        false
    }
}

/// Split the residue (the word after its onset) into nucleus and coda.
fn parse_vowel_final(v: &Vec<char>, from: usize) -> (r: Option<(Vec<char>, Vec<char>)>)
    requires
        from <= v@.len(),
    ensures
        ({
            let s = v@.subrange(from as int, v@.len() as int);
            match r {
                Some(vf) => spec_parse_vowel_final(s) == Some((vf.0@, vf.1@)),
                None => spec_parse_vowel_final(s) is None,
            }
        }),
{
    let n = v.len();
    let len = n - from;
    let ghost s = v@.subrange(from as int, v@.len() as int);
    if len == 0 {
        return None;
    }
    if len >= 2 {
        let f2 = {
            let a = v[n - 2];
            let b = v[n - 1];
            (a == 'c' && b == 'h') || (a == 'n' && b == 'g') || (a == 'n' && b == 'h')
        };
        proof {
            assert(s.subrange(s.len() - 2, s.len() as int)[0] == v@[n - 2]);
            assert(s.subrange(s.len() - 2, s.len() as int)[1] == v@[n - 1]);
        }
        if f2 && len - 2 > 0 {
            let vow_ok = all_vowelish(v, from, n - 2);
            proof {
                assert(s.subrange(0, s.len() - 2) =~= v@.subrange(from as int, n - 2));
            }
            if vow_ok {
                let vow = copy_range(v, from, n - 2);
                let fin = copy_range(v, n - 2, n);
                proof {
                    assert(vow@ =~= s.subrange(0, s.len() - 2));
                    assert(fin@ =~= s.subrange(s.len() - 2, s.len() as int));
                }
                return Some((vow, fin));
            }
        }
    }
    if len >= 1 {
        let f1 = {
            let c = v[n - 1];
            c == 'c' || c == 'm' || c == 'n' || c == 'p' || c == 't' || c == 'k'
        };
        proof {
            assert(s.subrange(s.len() - 1, s.len() as int)[0] == v@[n - 1]);
        }
        if f1 && len - 1 > 0 {
            let vow_ok = all_vowelish(v, from, n - 1);
            proof {
                assert(s.subrange(0, s.len() - 1) =~= v@.subrange(from as int, n - 1));
            }
            if vow_ok {
                let vow = copy_range(v, from, n - 1);
                let fin = copy_range(v, n - 1, n);
                proof {
                    assert(vow@ =~= s.subrange(0, s.len() - 1));
                    assert(fin@ =~= s.subrange(s.len() - 1, s.len() as int));
                }
                return Some((vow, fin));
            }
        }
    }
    let whole_ok = all_vowelish(v, from, n);
    proof {
        assert(s.subrange(0, s.len() as int) =~= s);
        assert(s =~= v@.subrange(from as int, n as int));
    }
    if whole_ok {
        let vow = copy_range(v, from, n);
        proof {
            assert(vow@ =~= s);
        }
        return Some((vow, Vec::new()));
    }
    None
}

/// Parse a lowercased word into onset, nucleus and coda.
fn parse_syllable(v: &Vec<char>) -> (r: Option<(Vec<char>, Vec<char>, Vec<char>)>)
    ensures
        match r {
            Some(t) => spec_parse_syllable(v@) == Some((t.0@, t.1@, t.2@)),
            None => spec_parse_syllable(v@) is None,
        },
{
    let n = v.len();
    if n >= 3 && valid_initial_chars(v, 3) {
        match parse_vowel_final(v, 3) {
            Some(vf) => {
                let ini = copy_range(v, 0, 3);
                return Some((ini, vf.0, vf.1));
            },
            None => (),
        }
    }
    if n >= 2 && valid_initial_chars(v, 2) {
        match parse_vowel_final(v, 2) {
            Some(vf) => {
                let ini = copy_range(v, 0, 2);
                return Some((ini, vf.0, vf.1));
            },
            None => (),
        }
    }
    if n >= 1 && valid_initial_chars(v, 1) {
        match parse_vowel_final(v, 1) {
            Some(vf) => {
                let ini = copy_range(v, 0, 1);
                return Some((ini, vf.0, vf.1));
            },
            None => (),
        }
    }
    match parse_vowel_final(v, 0) {
        Some(vf) => {
            proof {
                assert(v@.subrange(0, v@.len() as int) =~= v@);
            }
            return Some((Vec::new(), vf.0, vf.1));
        },
        None => (),
    }
    proof {
        assert(v@.subrange(0, v@.len() as int) =~= v@);
    }
    None
}

// ------------------------------------------------------------------
// Nucleus checks and spelling rules
// ------------------------------------------------------------------

/// A character with its tone stripped, modifier kept.
pub open spec fn spec_strip_tone(c: char) -> char {
    match spec_decomp(c) {
        Some(vc) => match spec_compose(vc.base, vc.modifier, ToneMark::Level) {
            Some(x) => x,
            None => vc.base,
        },
        None => c,
    }
}

/// The nucleus with tones stripped and modifiers kept.
pub open spec fn spec_normalize_vowel(s: Seq<char>) -> Seq<char> {
    s.map_values(|c: char| spec_strip_tone(c))
}

fn normalize_vowel(v: &Vec<char>) -> (r: Vec<char>)
    ensures
        r@ == spec_normalize_vowel(v@),
{
    let mut r: Vec<char> = Vec::new();
    let mut i: usize = 0;
    while i < v.len()
        invariant
            i <= v@.len(),
            r@ == spec_normalize_vowel(v@).take(i as int),
        decreases v@.len() - i,
    {
        let c = v[i];
        let stripped = match crate::chars::decomp(c) {
            Some(vc) => match crate::chars::compose(vc.base, vc.modifier, ToneMark::Level) {
                Some(x) => x,
                None => vc.base,
            },
            None => c,
        };
        r.push(stripped);
        i += 1;
        proof {
            assert(r@ =~= spec_normalize_vowel(v@).take(i as int));
        }
    }
    proof {
        assert(spec_normalize_vowel(v@).take(v@.len() as int) =~= spec_normalize_vowel(v@));
    }
    r
}

/// A nucleus on the whitelist: any single vowel, or one of the listed
/// diphthongs and triphthongs (including the extended patterns that carry
/// their final).
pub open spec fn spec_valid_nucleus(s: Seq<char>) -> bool {
    if s.len() == 1 {
        true
    } else if s.len() == 2 {
        let a = s[0];
        let b = s[1];
        (a == 'a' && (b == 'i' || b == 'o' || b == 'u' || b == 'y')) || (a == 'â' && (b == 'u' || b
            == 'y')) || (a == 'e' && b == 'o') || (a == 'ê' && b == 'u') || (a == 'i' && (b == 'a'
            || b == 'ê' || b == 'u')) || (a == 'o' && (b == 'a' || b == 'ă' || b == 'e' || b == 'i'
            || b == 'o')) || (a == 'ô' && b == 'i') || (a == 'ơ' && b == 'i') || (a == 'u' && (b
            == 'a' || b == 'â' || b == 'ê' || b == 'i' || b == 'o' || b == 'ô' || b == 'ơ' || b
            == 'y')) || (a == 'ư' && (b == 'ơ' || b == 'a' || b == 'i' || b == 'u')) || (a == 'y'
            && (b == 'a' || b == 'ê'))
    } else if s.len() == 3 {
        let a = s[0];
        let b = s[1];
        let c = s[2];
        (a == 'i' && b == 'ê' && c == 'u') || (a == 'o' && b == 'a' && (c == 'i' || c == 'y')) || (a
            == 'o' && b == 'e' && c == 'o') || (a == 'o' && b == 'a' && c == 'o') || (a == 'u' && b
            == 'â' && c == 'y') || (a == 'u' && b == 'ô' && c == 'i') || (a == 'ư' && b == 'ơ' && (c
            == 'i' || c == 'u')) || (a == 'y' && b == 'ê' && c == 'u') || (a == 'u' && b == 'y' && (
        c == 'a' || c == 'ê' || c == 'u')) || (a == 'u' && b == 'ê' && c == 'u') || (a == 'i' && b
            == 'ê' && (c == 'n' || c == 'p' || c == 'c' || c == 't' || c == 'm'))
    } else if s.len() == 4 {
        let a = s[0];
        let b = s[1];
        let c = s[2];
        let d = s[3];
        (a == 'u' && b == 'y' && c == 'ê' && (d == 'n' || d == 't')) || (a == 'u' && b == 'y' && c
            == 'n' && d == 'h') || (a == 'o' && b == 'o' && c == 'n' && d == 'g') || (a == 'i' && b
            == 'ê' && c == 'n' && d == 'g')
    } else {
        false
    }
}

fn valid_nucleus(v: &Vec<char>) -> (r: bool)
    ensures
        r == spec_valid_nucleus(v@),
{
    if v.len() == 1 {
        true
    } else if v.len() == 2 {
        let a = v[0];
        let b = v[1];
        (a == 'a' && (b == 'i' || b == 'o' || b == 'u' || b == 'y')) || (a == 'â' && (b == 'u' || b
            == 'y')) || (a == 'e' && b == 'o') || (a == 'ê' && b == 'u') || (a == 'i' && (b == 'a'
            || b == 'ê' || b == 'u')) || (a == 'o' && (b == 'a' || b == 'ă' || b == 'e' || b == 'i'
            || b == 'o')) || (a == 'ô' && b == 'i') || (a == 'ơ' && b == 'i') || (a == 'u' && (b
            == 'a' || b == 'â' || b == 'ê' || b == 'i' || b == 'o' || b == 'ô' || b == 'ơ' || b
            == 'y')) || (a == 'ư' && (b == 'ơ' || b == 'a' || b == 'i' || b == 'u')) || (a == 'y'
            && (b == 'a' || b == 'ê'))
    } else if v.len() == 3 {
        let a = v[0];
        let b = v[1];
        let c = v[2];
        (a == 'i' && b == 'ê' && c == 'u') || (a == 'o' && b == 'a' && (c == 'i' || c == 'y')) || (a
            == 'o' && b == 'e' && c == 'o') || (a == 'o' && b == 'a' && c == 'o') || (a == 'u' && b
            == 'â' && c == 'y') || (a == 'u' && b == 'ô' && c == 'i') || (a == 'ư' && b == 'ơ' && (c
            == 'i' || c == 'u')) || (a == 'y' && b == 'ê' && c == 'u') || (a == 'u' && b == 'y' && (
        c == 'a' || c == 'ê' || c == 'u')) || (a == 'u' && b == 'ê' && c == 'u') || (a == 'i' && b
            == 'ê' && (c == 'n' || c == 'p' || c == 'c' || c == 't' || c == 'm'))
    } else if v.len() == 4 {
        let a = v[0];
        let b = v[1];
        let c = v[2];
        let d = v[3];
        (a == 'u' && b == 'y' && c == 'ê' && (d == 'n' || d == 't')) || (a == 'u' && b == 'y' && c
            == 'n' && d == 'h') || (a == 'o' && b == 'o' && c == 'n' && d == 'g') || (a == 'i' && b
            == 'ê' && c == 'n' && d == 'g')
    } else {
        false
    }
}

/// A breve vowel directly followed by another vowel, which Vietnamese
/// forbids inside a nucleus.
pub open spec fn spec_breve_before_vowel(s: Seq<char>) -> bool {
    exists|i: int|
        0 <= i && i + 1 < s.len() && spec_get_modifier(s[i]) == VowelMod::Breve
            && spec_is_vowel_char(s[i + 1])
}

fn breve_before_vowel(v: &Vec<char>) -> (r: bool)
    ensures
        r == spec_breve_before_vowel(v@),
{
    let mut i: usize = 0;
    while i < v.len()
        invariant
            i <= v@.len(),
            forall|j: int|
                0 <= j < i ==> !(j + 1 < v@.len() && spec_get_modifier(v@[j]) == VowelMod::Breve
                    && spec_is_vowel_char(v@[j + 1])),
        decreases v@.len() - i,
    {
        if i + 1 < v.len() {
            let m = crate::transform::get_modifier(v[i]);
            if m == VowelMod::Breve && crate::chars::is_vowel(v[i + 1]) {
                return true;
            }
        }
        i += 1;
    }
    false
}

/// The spelling constraints on an onset and the base of the first nucleus
/// vowel: `c` must not precede `e`/`i`/`y` (use `k`), `k` must precede
/// them, `g` and `ng` must not precede `e`/`i` (use `gh`/`ngh`), which in
/// turn require them.
pub open spec fn spec_spelling_rules_ok(ini: Seq<char>, vow: Seq<char>) -> bool {
    let vb = if vow.len() > 0 {
        spec_get_base(vow[0])
    } else {
        ' '
    };
    if ini.len() == 1 && ini[0] == 'c' {
        !(vb == 'e' || vb == 'i' || vb == 'y')
    } else if ini.len() == 1 && ini[0] == 'k' {
        vb == 'e' || vb == 'i' || vb == 'y'
    } else if ini.len() == 1 && ini[0] == 'g' {
        !(vb == 'e' || vb == 'i')
    } else if ini.len() == 2 && ini[0] == 'g' && ini[1] == 'h' {
        vb == 'e' || vb == 'i'
    } else if ini.len() == 2 && ini[0] == 'n' && ini[1] == 'g' {
        !(vb == 'e' || vb == 'i')
    } else if ini.len() == 3 && ini[0] == 'n' && ini[1] == 'g' && ini[2] == 'h' {
        vb == 'e' || vb == 'i'
    } else {
        true
    }
}

fn spelling_rules_ok(ini: &Vec<char>, vow: &Vec<char>) -> (r: bool)
    ensures
        r == spec_spelling_rules_ok(ini@, vow@),
{
    let vb = if vow.len() > 0 {
        crate::chars::get_base(vow[0])
    } else {
        ' '
    };
    if ini.len() == 1 && ini[0] == 'c' {
        !(vb == 'e' || vb == 'i' || vb == 'y')
    } else if ini.len() == 1 && ini[0] == 'k' {
        vb == 'e' || vb == 'i' || vb == 'y'
    } else if ini.len() == 1 && ini[0] == 'g' {
        !(vb == 'e' || vb == 'i')
    } else if ini.len() == 2 && ini[0] == 'g' && ini[1] == 'h' {
        vb == 'e' || vb == 'i'
    } else if ini.len() == 2 && ini[0] == 'n' && ini[1] == 'g' {
        !(vb == 'e' || vb == 'i')
    } else if ini.len() == 3 && ini[0] == 'n' && ini[1] == 'g' && ini[2] == 'h' {
        vb == 'e' || vb == 'i'
    } else {
        true
    }
}

// ------------------------------------------------------------------
// The validator
// ------------------------------------------------------------------

/// The verdict of the validator on a word: empty or vowel-free words have
/// no vowel; the foreign gate rejects English-looking words; the parsed
/// onset, spelling, coda, nucleus whitelist and breve rule are then checked
/// in that order.
#[verifier::opaque]
pub open spec fn spec_validate(s: Seq<char>) -> ValidationResult {
    if s.len() == 0 {
        ValidationResult::NoVowel
    } else {
        let low = spec_lower_seq(s);
        if !spec_has_vowel(low) {
            ValidationResult::NoVowel
        } else if spec_foreign_gate(s, low) {
            ValidationResult::ForeignWord
        } else {
            match spec_parse_syllable(low) {
                Some(t) => {
                    let (ini, vow, fin) = t;
                    if !spec_valid_initial_chars(ini) {
                        ValidationResult::InvalidInitial
                    } else if !spec_valid_final_chars(fin) {
                        ValidationResult::InvalidFinal
                    } else if !spec_spelling_rules_ok(ini, vow) {
                        ValidationResult::InvalidSpelling
                    } else if !spec_valid_nucleus(spec_normalize_vowel(vow)) {
                        ValidationResult::InvalidVowelPattern
                    } else if spec_breve_before_vowel(vow) {
                        ValidationResult::InvalidVowelPattern
                    } else {
                        ValidationResult::Valid
                    }
                },
                None => ValidationResult::InvalidSpelling,
            }
        }
    }
}

/// Validate a word as a Vietnamese syllable.
pub fn validate(s: &str) -> (r: ValidationResult)
    ensures
        r == spec_validate(s@),
{
    let chars = chars_of_str(s);
    validate_chars(&chars)
}

/// Validate a word given as a character vector.
pub fn validate_chars(chars: &Vec<char>) -> (r: ValidationResult)
    ensures
        r == spec_validate(chars@),
{
    proof {
        reveal(spec_validate);
    }
    if chars.len() == 0 {
        return ValidationResult::NoVowel;
    }
    let low = lower_chars(chars);
    if !has_vowel(&low) {
        return ValidationResult::NoVowel;
    }
    if foreign_gate(chars, &low) {
        return ValidationResult::ForeignWord;
    }
    match parse_syllable(&low) {
        Some(t) => {
            let (ini, vow, fin) = t;
            if !valid_initial_exact(&ini) {
                return ValidationResult::InvalidInitial;
            }
            if !valid_final_exact(&fin) {
                return ValidationResult::InvalidFinal;
            }
            if !spelling_rules_ok(&ini, &vow) {
                return ValidationResult::InvalidSpelling;
            }
            let nb = normalize_vowel(&vow);
            if !valid_nucleus(&nb) {
                return ValidationResult::InvalidVowelPattern;
            }
            if breve_before_vowel(&vow) {
                return ValidationResult::InvalidVowelPattern;
            }
            ValidationResult::Valid
        },
        None => ValidationResult::InvalidSpelling,
    }
}

fn valid_initial_exact(v: &Vec<char>) -> (r: bool)
    ensures
        r == spec_valid_initial_chars(v@),
{
    proof {
        assert(v@.subrange(0, v@.len() as int) =~= v@);
    }
    if v.len() <= 3 {
        valid_initial_chars(v, v.len())
    } else {
        false
    }
}

fn valid_final_exact(v: &Vec<char>) -> (r: bool)
    ensures
        r == spec_valid_final_chars(v@),
{
    if v.len() == 0 {
        true
    } else if v.len() == 1 {
        let c = v[0];
        c == 'c' || c == 'm' || c == 'n' || c == 'p' || c == 't' || c == 'k'
    } else if v.len() == 2 {
        let a = v[0];
        let b = v[1];
        (a == 'c' && b == 'h') || (a == 'n' && b == 'g') || (a == 'n' && b == 'h')
    } else {
        false
    }
}

/// Check the spelling constraints for an onset written as text and the
/// vowel that follows it.
pub fn check_spelling_rules(initial: &str, vowel: &str) -> (r: bool)
    ensures
        r == spec_spelling_rules_ok(initial@, vowel@),
{
    let ini = chars_of_str(initial);
    let vow = chars_of_str(vowel);
    spelling_rules_ok(&ini, &vow)
}

/// Whether a word is a fully valid Vietnamese syllable.
pub fn is_valid_syllable(s: &str) -> (r: bool)
    ensures
        r == (spec_validate(s@) == ValidationResult::Valid),
{
    let v = validate(s);
    v.is_valid()
}

/// Whether a word could still become valid Vietnamese while it is being
/// typed: the empty word can, and otherwise only words that do not match
/// the per-key foreign patterns.
pub fn is_potentially_valid(s: &str) -> (r: bool)
    ensures
        r == (s@.len() == 0 || !spec_foreign_word_pattern(spec_lower_seq(s@), None)),
{
    let chars = chars_of_str(s);
    if chars.len() == 0 {
        return true;
    }
    let low = lower_chars(&chars);
    proof {
        lemma_lower_seq_idempotent(s@);
    }
    let foreign = foreign_word_pattern_chars(&low, None);
    !foreign
}

/// Lowercasing is idempotent.
proof fn lemma_lower_seq_idempotent(s: Seq<char>)
    ensures
        spec_lower_seq(spec_lower_seq(s)) =~= spec_lower_seq(s),
{
    assert forall|i: int| 0 <= i < s.len() implies spec_lower_seq(spec_lower_seq(s))[i]
        == spec_lower_seq(s)[i] by {
        assert(spec_lower_seq(s)[i] == spec_lower_char(s[i]));
        assert(spec_lower_char(spec_lower_char(s[i])) == spec_lower_char(s[i]));
    }
}

/// Whether the word starts with the `gi` onset (so a leading `i` belongs
/// to the onset).
pub fn has_gi_initial(s: &str) -> (r: bool)
    ensures
        r == spec_starts2(spec_lower_seq(s@), 'g', 'i'),
{
    let chars = chars_of_str(s);
    let low = lower_chars(&chars);
    starts2(&low, 'g', 'i')
}

/// Whether the word starts with the `qu` onset (so a leading `u` belongs
/// to the onset).
pub fn has_qu_initial(s: &str) -> (r: bool)
    ensures
        r == spec_starts2(spec_lower_seq(s@), 'q', 'u'),
{
    let chars = chars_of_str(s);
    let low = lower_chars(&chars);
    starts2(&low, 'q', 'u')
}

/// A whitespace character, over the Unicode `White_Space` set.
#[verifier::opaque]
pub open spec fn spec_is_whitespace_char(ch: char) -> bool {
    ch == '\t' || ch == '\n' || ch == '\u{b}' || ch == '\u{c}' || ch == '\r' || ch == ' ' || ch
        == '\u{85}' || ch == '\u{a0}' || ch == '\u{1680}' || ('\u{2000}' <= ch <= '\u{200a}')
        || ch == '\u{2028}' || ch == '\u{2029}' || ch == '\u{202f}' || ch == '\u{205f}' || ch
        == '\u{3000}'
}

/// Check whether a character is whitespace.
pub fn is_whitespace_char(ch: char) -> (r: bool)
    ensures
        r == spec_is_whitespace_char(ch),
{
    proof {
        reveal(spec_is_whitespace_char);
    }
    ch == '\t' || ch == '\n' || ch == '\u{b}' || ch == '\u{c}' || ch == '\r' || ch == ' ' || ch
        == '\u{85}' || ch == '\u{a0}' || ch == '\u{1680}' || ('\u{2000}' <= ch && ch
        <= '\u{200a}') || ch == '\u{2028}' || ch == '\u{2029}' || ch == '\u{202f}' || ch
        == '\u{205f}' || ch == '\u{3000}'
}

/// A character that terminates a word: whitespace, punctuation, or one of
/// the symbol keys.
pub open spec fn spec_is_word_boundary(ch: char) -> bool {
    spec_is_whitespace_char(ch) || ch == '.' || ch == ',' || ch == '!' || ch == '?' || ch == ':'
        || ch == ';' || ch == '"' || ch == '\'' || ch == '(' || ch == ')' || ch == '[' || ch == ']'
        || ch == '{' || ch == '}' || ch == '<' || ch == '>' || ch == '/' || ch == '\\' || ch == '='
        || ch == '+' || ch == '-' || ch == '*' || ch == '@' || ch == '#' || ch == '$' || ch == '%'
        || ch == '^' || ch == '&' || ch == '|' || ch == '~' || ch == '`'
}

/// Check whether a character terminates a word.
pub fn is_word_boundary(ch: char) -> (r: bool)
    ensures
        r == spec_is_word_boundary(ch),
{
    is_whitespace_char(ch) || ch == '.' || ch == ',' || ch == '!' || ch == '?' || ch == ':' || ch
        == ';' || ch == '"' || ch == '\'' || ch == '(' || ch == ')' || ch == '[' || ch == ']' || ch
        == '{' || ch == '}' || ch == '<' || ch == '>' || ch == '/' || ch == '\\' || ch == '=' || ch
        == '+' || ch == '-' || ch == '*' || ch == '@' || ch == '#' || ch == '$' || ch == '%' || ch
        == '^' || ch == '&' || ch == '|' || ch == '~' || ch == '`'
}

} // verus!
