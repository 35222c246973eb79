//! The character engine: the per-key pipeline.
//!
//! The engine owns the composition buffer, the selected input method and the
//! shortcut table.  Each key either passes through, updates the composition
//! (reported as an edit script), or closes the word with a commit or an
//! auto-restore.  The whole pipeline is mirrored by the specification
//! function [`spec_process_key`], and `process_key` is proved to implement
//! it exactly.

use vstd::prelude::*;
use crate::buffer::{Buffer, BufferChar, spec_text, spec_raw};
use crate::chars::{ToneMark, VowelMod, spec_with_tone, spec_with_modifier, spec_get_base};
use crate::differ::{spec_edit, spec_apply_edit, compute_edit};
use crate::keycodes::spec_from_char_lower;
use crate::methods::{KeyAction, Method};
use crate::phonology::{VowelInfo, spec_mark_position, find_mark_position};
use crate::shortcut::{Shortcut, ShortcutTable, spec_try_match};
use crate::strings::{chars_of_str, string_of_chars};
use crate::transform::{
    spec_get_tone, spec_get_modifier, spec_should_undo_tone, spec_should_undo_modifier,
    spec_remove_tone, spec_remove_modifier, spec_apply_uo_compound, spec_remove_diacritics,
    spec_toggle_stroke,
};
use crate::unicode::{spec_lower_char, spec_upper_char, lower_char, upper_char};
use crate::validation::{ValidationResult, spec_validate, spec_is_word_boundary,
    spec_foreign_word_pattern, spec_lower_seq};
use crate::MAX_BUFFER_SIZE;

verus! {

/// What the host should do with a processed key.
#[derive(Debug, Clone, Copy, PartialEq, Eq, Structural)]
pub enum Action {
    /// Close the word: type `output`, nothing to erase.
    Commit,
    /// Update the composition: erase `backspace` code points, type `output`.
    Update,
    /// Let the key through unchanged.
    Passthrough,
    /// Replace the composed word with its raw keystrokes.
    Restore,
}

/// The answer to one key event.
#[derive(Debug)]
pub struct ProcessResult {
    pub action: Action,
    pub output: String,
    pub backspace: usize,
    pub restored: bool,
}

impl ProcessResult {
    /// Let the key through.
    pub fn passthrough() -> (r: Self)
        ensures
            r.action == Action::Passthrough,
            r.output@ == Seq::<char>::empty(),
            r.backspace == 0,
            !r.restored,
    {
        let out = ProcessResult {
            action: Action::Passthrough,
            output: String::new(),
            backspace: 0,
            restored: false,
        };
        proof {
            assert(out.output@ =~= Seq::<char>::empty());
        }
        out
    }

    /// Close the word with this text.
    pub fn commit(text: String) -> (r: Self)
        ensures
            r.action == Action::Commit,
            r.output == text,
            r.backspace == 0,
            !r.restored,
    {
        ProcessResult { action: Action::Commit, output: text, backspace: 0, restored: false }
    }

    /// Update the composition.
    pub fn update(text: String, backspace: usize) -> (r: Self)
        ensures
            r.action == Action::Update,
            r.output == text,
            r.backspace == backspace,
            !r.restored,
    {
        ProcessResult { action: Action::Update, output: text, backspace, restored: false }
    }

    /// Replace the composed word with its raw keystrokes.
    pub fn restore(raw_text: String, backspace: usize) -> (r: Self)
        ensures
            r.action == Action::Restore,
            r.output == raw_text,
            r.backspace == backspace,
            r.restored,
    {
        ProcessResult { action: Action::Restore, output: raw_text, backspace, restored: true }
    }
}

/// Which transformation was applied last.
#[derive(Debug, Clone, Copy, PartialEq, Eq, Structural)]
pub enum TransformType {
    Unset,
    Tone(ToneMark),
    Modifier(VowelMod),
    Stroke,
}

/// The last transformation, remembered for the undo key.
#[derive(Debug, Clone, Copy, PartialEq, Eq, Structural)]
pub struct LastTransform {
    pub position: Option<usize>,
    pub transform_type: TransformType,
    pub original: Option<char>,
}

/// An empty transform record.
pub open spec fn spec_lt_default() -> LastTransform {
    LastTransform { position: None, transform_type: TransformType::Unset, original: None }
}

fn lt_default() -> (r: LastTransform)
    ensures
        r == spec_lt_default(),
{
    LastTransform { position: None, transform_type: TransformType::Unset, original: None }
}

/// The ghost state of the engine.
pub struct EngineModel {
    pub buffer: Seq<BufferChar>,
    pub method: Method,
    pub method_name: Seq<char>,
    pub enabled: bool,
    pub table_enabled: bool,
    pub table: Seq<Shortcut>,
    pub last_transform: LastTransform,
    pub possible_foreign: bool,
    pub shortcut_prefix: Option<char>,
    pub auto_capitalize: bool,
    pub smart_quotes: bool,
    pub spell_check: bool,
    pub modern_style: bool,
    pub next_char_upper: bool,
    pub last_committed_char: Option<char>,
}

/// The ghost answer to one key event.
pub struct SpecOut {
    pub action: Action,
    pub output: Seq<char>,
    pub backspace: int,
    pub restored: bool,
}

pub open spec fn out_passthrough() -> SpecOut {
    SpecOut { action: Action::Passthrough, output: Seq::empty(), backspace: 0, restored: false }
}

pub open spec fn out_update(output: Seq<char>, backspace: int) -> SpecOut {
    SpecOut { action: Action::Update, output, backspace, restored: false }
}

pub open spec fn out_commit(output: Seq<char>) -> SpecOut {
    SpecOut { action: Action::Commit, output, backspace: 0, restored: false }
}

pub open spec fn out_restore(output: Seq<char>, backspace: int) -> SpecOut {
    SpecOut { action: Action::Restore, output, backspace, restored: true }
}

/// A character pushed as itself, dropped when the buffer is full.
pub open spec fn spec_push_simple(buf: Seq<BufferChar>, c: char) -> Seq<BufferChar> {
    if buf.len() < MAX_BUFFER_SIZE {
        buf.push(BufferChar { ch: c, raw: c, transformed: false })
    } else {
        buf
    }
}

/// The first `k` characters of `cs` pushed in order.
pub open spec fn spec_push_upto(buf: Seq<BufferChar>, cs: Seq<char>, k: int) -> Seq<BufferChar>
    decreases k,
{
    if k <= 0 {
        buf
    } else {
        spec_push_simple(spec_push_upto(buf, cs, k - 1), cs[k - 1])
    }
}

/// One buffer position replaced (in range), the new character's raw kept.
pub open spec fn spec_replace(buf: Seq<BufferChar>, i: usize, c: char) -> Seq<BufferChar> {
    if i < buf.len() {
        buf.update(
            i as int,
            BufferChar { ch: c, raw: buf[i as int].raw, transformed: c != buf[i as int].raw },
        )
    } else {
        buf
    }
}

/// The buffer text with the prefix sigil prepended, as handed to the
/// shortcut table.
pub open spec fn spec_with_prefix(prefix: Option<char>, text: Seq<char>) -> Seq<char> {
    match prefix {
        Some(p) => seq![p] + text,
        None => text,
    }
}

/// Alphabetic for the engine: ASCII letters and composed Vietnamese
/// letters.
pub open spec fn spec_is_alphabetic(c: char) -> bool {
    ('a' <= c <= 'z') || ('A' <= c <= 'Z') || crate::chars::spec_is_vowel_char(c) || c == 'đ' || c
        == 'Đ'
}

fn is_alphabetic(c: char) -> (r: bool)
    ensures
        r == spec_is_alphabetic(c),
{
    ('a' <= c && c <= 'z') || ('A' <= c && c <= 'Z') || crate::chars::is_vowel(c) || c == 'đ' || c
        == 'Đ'
}

/// Whitespace, over the Unicode `White_Space` set.
pub open spec fn spec_is_whitespace(c: char) -> bool {
    crate::validation::spec_is_whitespace_char(c)
}

fn is_whitespace(c: char) -> (r: bool)
    ensures
        r == spec_is_whitespace(c),
{
    crate::validation::is_whitespace_char(c)
}

/// The sigils that may open a shortcut trigger.
pub open spec fn spec_is_valid_prefix(c: char) -> bool {
    c == '#' || c == '@' || c == '!' || c == '$' || c == '%' || c == '^' || c == '&' || c == '*'
        || c == '/' || c == ':'
}

fn is_valid_prefix(c: char) -> (r: bool)
    ensures
        r == spec_is_valid_prefix(c),
{
    c == '#' || c == '@' || c == '!' || c == '$' || c == '%' || c == '^' || c == '&' || c == '*'
        || c == '/' || c == ':'
}

/// The keycode standing for a character's base letter, for the placement
/// rules.
pub open spec fn spec_key_of_char(c: char) -> u16 {
    match spec_from_char_lower(spec_get_base(spec_lower_char(c))) {
        Some(k) => k,
        None => 0,
    }
}

/// The vowels of the buffer text, described for the placement rules.
pub open spec fn spec_engine_vowel_infos(text: Seq<char>) -> Seq<VowelInfo> {
    let vi = crate::transform::spec_char_vowel_indices(text);
    Seq::new(
        vi.len(),
        |i: int|
            VowelInfo {
                key: spec_key_of_char(text[vi[i] as int]),
                pos: vi[i],
                has_tone_mod: spec_get_modifier(text[vi[i] as int]) != VowelMod::Plain,
            },
    )
}

/// Where the engine places a tone on its buffer text: the style-aware
/// placement rules over the vowels, with the `qu-`/`gi-` initials and the
/// final consonant detected from the text.
pub open spec fn spec_engine_tone_position(text: Seq<char>, modern: bool) -> Option<usize> {
    let vi = crate::transform::spec_char_vowel_indices(text);
    if vi.len() == 0 {
        None
    } else {
        let has_qu = text.len() >= 2 && spec_lower_char(text[0]) == 'q' && spec_lower_char(text[1])
            == 'u';
        let has_gi = text.len() >= 2 && spec_lower_char(text[0]) == 'g' && spec_lower_char(text[1])
            == 'i';
        let has_final = text.len() > vi.last() + 1;
        Some(spec_mark_position(spec_engine_vowel_infos(text), has_final, has_qu, has_gi, modern))
    }
}

/// Compute the engine's tone position on the given buffer text.
#[verifier::rlimit(100)]
fn engine_tone_position(text: &Vec<char>, modern: bool) -> (r: Option<usize>)
    ensures
        r == spec_engine_tone_position(text@, modern),
{
    let n_text = text.len();
    proof {
        assert(text@.len() == n_text);
        crate::transform::lemma_char_vowel_indices_in_range(text@);
    }
    let vi = crate::transform::find_vowel_indices(text.as_slice());
    if vi.len() == 0 {
        return None;
    }
    let mut infos: Vec<VowelInfo> = Vec::new();
    let mut i: usize = 0;
    while i < vi.len()
        invariant
            i <= vi@.len(),
            vi@ == crate::transform::spec_char_vowel_indices(text@),
            forall|j: int| 0 <= j < vi@.len() ==> vi@[j] < text@.len(),
            infos@ == spec_engine_vowel_infos(text@).take(i as int),
        decreases vi@.len() - i,
    {
        let p = vi[i];
        let c = text[p];
        let k = match crate::keycodes::from_char(crate::chars::get_base(lower_char(c))) {
            Some(k) => k,
            None => 0,
        };
        let m = crate::transform::get_modifier(c);
        infos.push(VowelInfo { key: k, pos: p, has_tone_mod: m != VowelMod::Plain });
        i += 1;
        proof {
            assert(crate::keycodes::spec_ascii_lower(crate::chars::spec_get_base(spec_lower_char(c)))
                == crate::chars::spec_get_base(spec_lower_char(c)));
            assert(infos@ =~= spec_engine_vowel_infos(text@).take(i as int));
        }
    }
    proof {
        assert(infos@ =~= spec_engine_vowel_infos(text@));
    }
    let has_qu = text.len() >= 2 && lower_char(text[0]) == 'q' && lower_char(text[1]) == 'u';
    let has_gi = text.len() >= 2 && lower_char(text[0]) == 'g' && lower_char(text[1]) == 'i';
    let last_vowel = vi[vi.len() - 1];
    let has_final = text.len() > last_vowel + 1;
    Some(find_mark_position(infos.as_slice(), has_final, has_qu, has_gi, modern))
}

/// The tone-bearing character placed at the target: the tone applied, and
/// the `iê`/`uê`/`yê` nuclei completed with a circumflex when the target is
/// a bare `e` after `i`, `u` or `y`.
pub open spec fn spec_tone_target_char(text: Seq<char>, pos: int, tone: ToneMark) -> Option<char> {
    if 0 <= pos < text.len() {
        let old = text[pos];
        match spec_with_tone(old, tone) {
            Some(nc) => {
                let norm = spec_get_base(spec_lower_char(old)) == 'e' && spec_get_modifier(old)
                    == VowelMod::Plain && pos > 0 && crate::chars::spec_is_vowel_char(
                    text[pos - 1],
                ) && {
                    let pb = spec_get_base(spec_lower_char(text[pos - 1]));
                    pb == 'i' || pb == 'u' || pb == 'y'
                };
                if norm {
                    match spec_with_modifier(nc, VowelMod::Circumflex) {
                        Some(nc2) => Some(nc2),
                        None => Some(nc),
                    }
                } else {
                    Some(nc)
                }
            },
            None => None,
        }
    } else {
        None
    }
}

fn tone_target_char(text: &Vec<char>, pos: usize, tone: ToneMark) -> (r: Option<char>)
    ensures
        r == spec_tone_target_char(text@, pos as int, tone),
{
    if pos >= text.len() {
        return None;
    }
    let old = text[pos];
    match crate::chars::with_tone(old, tone) {
        Some(nc) => {
            let m = crate::transform::get_modifier(old);
            let norm = crate::chars::get_base(lower_char(old)) == 'e' && m == VowelMod::Plain && pos
                > 0 && crate::chars::is_vowel(text[pos - 1]) && {
                let pb = crate::chars::get_base(lower_char(text[pos - 1]));
                pb == 'i' || pb == 'u' || pb == 'y'
            };
            if norm {
                match crate::chars::with_modifier(nc, VowelMod::Circumflex) {
                    Some(nc2) => Some(nc2),
                    None => Some(nc),
                }
            } else {
                Some(nc)
            }
        },
        None => None,
    }
}

/// The first adjacent position pair whose base letters are `u` then `o`.
pub open spec fn spec_uo_pos(text: Seq<char>, i: int) -> Option<usize>
    decreases text.len() - i,
{
    if i < 0 || i + 1 >= text.len() {
        None
    } else if spec_get_base(spec_lower_char(text[i])) == 'u' && spec_get_base(
        spec_lower_char(text[i + 1]),
    ) == 'o' {
        Some(i as usize)
    } else {
        spec_uo_pos(text, i + 1)
    }
}

fn find_uo_pos(text: &Vec<char>) -> (r: Option<usize>)
    ensures
        r == spec_uo_pos(text@, 0),
        r matches Some(p) ==> p + 1 < text@.len(),
{
    let n = text.len();
    if n == 0 {
        return None;
    }
    let mut i: usize = 0;
    while i < n - 1
        invariant
            i <= n,
            n >= 1,
            n == text@.len(),
            spec_uo_pos(text@, 0) == spec_uo_pos(text@, i as int),
        decreases n - i,
    {
        if crate::chars::get_base(lower_char(text[i])) == 'u' && crate::chars::get_base(
            lower_char(text[i + 1]),
        ) == 'o' {
            return Some(i);
        }
        i += 1;
    }
    None
}

/// Whether any buffer character is a vowel.
pub open spec fn spec_any_vowel(text: Seq<char>) -> bool {
    exists|i: int| 0 <= i < text.len() && crate::chars::spec_is_vowel_char(text[i])
}

/// Whether any buffer character carries a diacritic (its base letter
/// differs from it).
pub open spec fn spec_any_mark(text: Seq<char>) -> bool {
    exists|i: int| 0 <= i < text.len() && spec_get_base(text[i]) != text[i]
}

/// The last position holding a `d` or `đ`, in either case.
pub open spec fn spec_last_d(text: Seq<char>, i: int) -> Option<usize>
    decreases i + 1,
{
    if i < 0 || i >= text.len() {
        None
    } else if spec_lower_char(text[i]) == 'd' || spec_lower_char(text[i]) == 'đ' {
        Some(i as usize)
    } else {
        spec_last_d(text, i - 1)
    }
}

/// The first `k` characters stripped of their diacritics, and whether any
/// position changed.
pub open spec fn spec_strip_all(buf: Seq<BufferChar>, k: int) -> (Seq<BufferChar>, bool)
    decreases k,
{
    if k <= 0 {
        (buf, false)
    } else {
        let (prev, changed) = spec_strip_all(buf, k - 1);
        if k - 1 < prev.len() && spec_remove_diacritics(prev[k - 1].ch) != prev[k - 1].ch {
            (spec_replace(prev, (k - 1) as usize, spec_remove_diacritics(prev[k - 1].ch)), true)
        } else {
            (prev, changed)
        }
    }
}

/// The model after the per-word state is reset.
pub open spec fn spec_reset_word(m: EngineModel) -> EngineModel {
    EngineModel { last_transform: spec_lt_default(), possible_foreign: false, ..m }
}

/// The boundary bookkeeping: the key is remembered, and a sentence-ending
/// key arms auto-capitalisation.
pub open spec fn spec_after_boundary(m: EngineModel, key: char) -> EngineModel {
    EngineModel {
        last_committed_char: Some(key),
        next_char_upper: if (key == '.' || key == '!' || key == '?') && m.auto_capitalize {
            true
        } else {
            m.next_char_upper
        },
        ..m
    }
}

/// An ordinary character: pushed into the buffer, then matched against the
/// immediate shortcuts; otherwise reported as a minimal edit script.
pub open spec fn spec_regular_char(m: EngineModel, key: char) -> (EngineModel, SpecOut) {
    let old_text = spec_text(m.buffer);
    let buf1 = spec_push_simple(m.buffer, key);
    let full = spec_with_prefix(m.shortcut_prefix, spec_text(buf1));
    match spec_try_match(m.table_enabled, m.table, full, None, false) {
        Some(mm) => {
            let backspace = old_text.len() as int + if m.shortcut_prefix is Some {
                1int
            } else {
                0int
            };
            let buf2 = spec_push_upto(Seq::empty(), mm.replacement, mm.replacement.len() as int);
            (
                EngineModel {
                    buffer: buf2,
                    last_transform: spec_lt_default(),
                    shortcut_prefix: None,
                    ..m
                },
                out_update(spec_text(buf2), backspace),
            )
        },
        None => {
            let e = spec_edit(old_text, spec_text(buf1));
            (
                EngineModel { buffer: buf1, last_transform: spec_lt_default(), ..m },
                out_update(e.1, e.0),
            )
        },
    }
}

/// A word boundary: a boundary shortcut fires first; otherwise the word is
/// validated and either committed as composed or restored to its raw
/// keystrokes.  Either way the per-word state, a pending prefix sigil
/// included, is reset.
pub open spec fn spec_word_boundary(m: EngineModel, key: char) -> (EngineModel, SpecOut) {
    if m.buffer.len() == 0 {
        (EngineModel { shortcut_prefix: None, ..m }, out_passthrough())
    } else {
        let text = spec_text(m.buffer);
        let raw = spec_raw(m.buffer);
        let full = spec_with_prefix(m.shortcut_prefix, text);
        match spec_try_match(m.table_enabled, m.table, full, None, true) {
            Some(mm) => {
                let backspace = m.buffer.len() as int + if m.shortcut_prefix is Some {
                    1int
                } else {
                    0int
                };
                let m1 = spec_after_boundary(
                    spec_reset_word(
                        EngineModel { buffer: Seq::empty(), shortcut_prefix: None, ..m },
                    ),
                    key,
                );
                (m1, out_update(mm.replacement.push(key), backspace))
            },
            None => {
                let v = spec_validate(text);
                let should_restore = (v == ValidationResult::ForeignWord && m.spell_check) || v
                    == ValidationResult::InvalidVowelPattern || v
                    == ValidationResult::InvalidSpelling;
                let m1 = spec_after_boundary(
                    spec_reset_word(
                        EngineModel { buffer: Seq::empty(), shortcut_prefix: None, ..m },
                    ),
                    key,
                );
                if should_restore && text != raw {
                    (m1, out_restore(raw.push(key), text.len() as int))
                } else {
                    (m1, out_commit(text.push(key)))
                }
            },
        }
    }
}

/// A tone request: a repeated tone on the rightmost vowel undoes it;
/// otherwise the placement rules pick the vowel, the tone is applied (and
/// an `iê`-like nucleus completed), and the change is reported as a minimal
/// edit script.  Without a target the key is an ordinary character.
pub open spec fn spec_apply_tone(m: EngineModel, tone: ToneMark, raw_key: char) -> (
    EngineModel,
    SpecOut,
) {
    let text = spec_text(m.buffer);
    let vi = crate::transform::spec_char_vowel_indices(text);
    if vi.len() > 0 && spec_should_undo_tone(text[vi.last() as int], tone) {
        let without = spec_remove_tone(text[vi.last() as int]).0;
        let buf1 = spec_push_simple(spec_replace(m.buffer, vi.last(), without), raw_key);
        let m1 = EngineModel {
            buffer: buf1,
            last_transform: LastTransform {
                position: Some(vi.last()),
                transform_type: TransformType::Unset,
                original: None,
            },
            ..m
        };
        let e = spec_edit(text, spec_text(buf1));
        (m1, out_update(e.1, e.0))
    } else {
        match spec_engine_tone_position(text, m.modern_style) {
            Some(pos) => match spec_tone_target_char(text, pos as int, tone) {
                Some(nc) => {
                    let buf1 = spec_replace(m.buffer, pos, nc);
                    let m1 = EngineModel {
                        buffer: buf1,
                        last_transform: LastTransform {
                            position: Some(pos),
                            transform_type: TransformType::Tone(tone),
                            original: Some(text[pos as int]),
                        },
                        ..m
                    };
                    let e = spec_edit(text, spec_text(buf1));
                    (m1, out_update(e.1, e.0))
                },
                None => spec_regular_char(m, raw_key),
            },
            None => spec_regular_char(m, raw_key),
        }
    }
}

/// A modifier request: the horn looks for a `uo` pair first (both take the
/// horn); a repeated modifier on the selected vowel undoes it; otherwise
/// the rightmost admissible vowel takes it.  Without a target the key is an
/// ordinary character.
pub open spec fn spec_apply_modifier(m: EngineModel, modifier: VowelMod, raw_key: char) -> (
    EngineModel,
    SpecOut,
) {
    let text = spec_text(m.buffer);
    let compound = if modifier == VowelMod::Horn {
        spec_uo_pos(text, 0)
    } else {
        None
    };
    match compound {
        Some(pos) => {
            let (text2, applied) = spec_apply_uo_compound(text, pos as int);
            if applied {
                let buf1 = spec_replace(
                    spec_replace(m.buffer, pos, text2[pos as int]),
                    (pos + 1) as usize,
                    text2[pos + 1],
                );
                let m1 = EngineModel {
                    buffer: buf1,
                    last_transform: LastTransform {
                        position: Some(pos),
                        transform_type: TransformType::Modifier(modifier),
                        original: None,
                    },
                    ..m
                };
                let e = spec_edit(text, spec_text(buf1));
                (m1, out_update(e.1, e.0))
            } else {
                spec_modifier_at_position(m, modifier, raw_key)
            }
        },
        None => spec_modifier_at_position(m, modifier, raw_key),
    }
}

/// The non-compound modifier path.
pub open spec fn spec_modifier_at_position(m: EngineModel, modifier: VowelMod, raw_key: char) -> (
    EngineModel,
    SpecOut,
) {
    let text = spec_text(m.buffer);
    match crate::transform::spec_find_modifier_position(text, modifier, text.len() - 1) {
        Some(pos) => {
            let old = text[pos as int];
            if spec_should_undo_modifier(old, modifier) {
                let without = spec_remove_modifier(old).0;
                let buf1 = spec_push_simple(spec_replace(m.buffer, pos, without), raw_key);
                let m1 = EngineModel { buffer: buf1, ..m };
                let e = spec_edit(text, spec_text(buf1));
                (m1, out_update(e.1, e.0))
            } else {
                match spec_with_modifier(old, modifier) {
                    Some(nc) => {
                        let buf1 = spec_replace(m.buffer, pos, nc);
                        let m1 = EngineModel {
                            buffer: buf1,
                            last_transform: LastTransform {
                                position: Some(pos),
                                transform_type: TransformType::Modifier(modifier),
                                original: Some(old),
                            },
                            ..m
                        };
                        let e = spec_edit(text, spec_text(buf1));
                        (m1, out_update(e.1, e.0))
                    },
                    None => spec_regular_char(m, raw_key),
                }
            }
        },
        None => spec_regular_char(m, raw_key),
    }
}

/// A stroke request: the last `d`/`đ` toggles, unless the delayed-stroke
/// gate (a vowel present, no diacritic yet, a long buffer that does not
/// validate) withholds it.
pub open spec fn spec_apply_stroke(m: EngineModel) -> (EngineModel, SpecOut) {
    let text = spec_text(m.buffer);
    match spec_last_d(text, text.len() - 1) {
        Some(pos) => {
            let gate = spec_any_vowel(text) && !spec_any_mark(text) && text.len() > 3
                && spec_validate(text) != ValidationResult::Valid;
            if gate {
                (m, out_passthrough())
            } else {
                let nc = spec_toggle_stroke(text[pos as int]);
                let buf1 = spec_replace(m.buffer, pos, nc);
                let m1 = EngineModel {
                    buffer: buf1,
                    last_transform: LastTransform {
                        position: Some(pos),
                        transform_type: TransformType::Stroke,
                        original: Some(text[pos as int]),
                    },
                    ..m
                };
                let e = spec_edit(text, spec_text(buf1));
                (m1, out_update(e.1, e.0))
            }
        },
        None => (m, out_passthrough()),
    }
}

/// A strip request: every character loses its diacritics; if nothing
/// changes the key passes through.
pub open spec fn spec_remove_all(m: EngineModel) -> (EngineModel, SpecOut) {
    let text = spec_text(m.buffer);
    let (buf1, changed) = spec_strip_all(m.buffer, m.buffer.len() as int);
    if !changed {
        (EngineModel { buffer: buf1, ..m }, out_passthrough())
    } else {
        let m1 = EngineModel { buffer: buf1, last_transform: spec_lt_default(), ..m };
        let e = spec_edit(text, spec_text(buf1));
        (m1, out_update(e.1, e.0))
    }
}

/// An undo request: the recorded original character is put back.
pub open spec fn spec_undo_last(m: EngineModel) -> (EngineModel, SpecOut) {
    match (m.last_transform.position, m.last_transform.original) {
        (Some(pos), Some(orig)) => {
            if pos < m.buffer.len() {
                let text = spec_text(m.buffer);
                let buf1 = spec_replace(m.buffer, pos, orig);
                let m1 = EngineModel { buffer: buf1, last_transform: spec_lt_default(), ..m };
                let e = spec_edit(text, spec_text(buf1));
                (m1, out_update(e.1, e.0))
            } else {
                (m, out_passthrough())
            }
        },
        _ => (m, out_passthrough()),
    }
}

/// A quick-Telex request: the doubled consonant is popped and the cluster
/// pushed, the popped character's case kept on the cluster's first letter.
pub open spec fn spec_quick_telex(m: EngineModel, c1: char, c2: char) -> (EngineModel, SpecOut) {
    let text = spec_text(m.buffer);
    let (buf0, was_upper) = if m.buffer.len() > 0 {
        (m.buffer.drop_last(), m.buffer.last().ch != spec_lower_char(m.buffer.last().ch))
    } else {
        (m.buffer, false)
    };
    let first = if was_upper {
        spec_upper_char(c1)
    } else {
        c1
    };
    let buf1 = spec_push_simple(spec_push_simple(buf0, first), c2);
    let m1 = EngineModel { buffer: buf1, last_transform: spec_lt_default(), ..m };
    let e = spec_edit(text, spec_text(buf1));
    (m1, out_update(e.1, e.0))
}

/// A direct insertion.
pub open spec fn spec_insert_char(m: EngineModel, c: char) -> (EngineModel, SpecOut) {
    let text = spec_text(m.buffer);
    let buf1 = spec_push_simple(m.buffer, c);
    let m1 = EngineModel { buffer: buf1, last_transform: spec_lt_default(), ..m };
    let e = spec_edit(text, spec_text(buf1));
    (m1, out_update(e.1, e.0))
}

/// The curly quote for a straight quote key.
pub open spec fn spec_smart_quote(m: EngineModel, key: char) -> char {
    let is_open = m.buffer.len() == 0 && (match m.last_committed_char {
        Some(c) => spec_is_whitespace(c),
        None => true,
    });
    if key == '"' {
        if is_open {
            '\u{201c}'
        } else {
            '\u{201d}'
        }
    } else {
        if is_open {
            '\u{2018}'
        } else {
            '\u{2019}'
        }
    }
}

/// The VNI guard: a tone or modifier digit degrades to a literal when the
/// buffer has no vowel or ends in a consonant.
pub open spec fn spec_vni_guard(text: Seq<char>) -> bool {
    !spec_any_vowel(text) || (text.len() > 0 && crate::chars::spec_is_consonant_char(
        text[text.len() - 1],
    ))
}

/// The whole per-key pipeline, as one specification function.
pub open spec fn spec_process_key(m: EngineModel, key: char) -> (EngineModel, SpecOut) {
    if !m.enabled {
        (m, out_passthrough())
    } else if m.smart_quotes && (key == '"' || key == '\'') {
        spec_regular_char(m, spec_smart_quote(m, key))
    } else {
        let cap = m.auto_capitalize && m.next_char_upper && spec_is_alphabetic(key);
        let key2 = if cap {
            spec_upper_char(key)
        } else {
            key
        };
        let m0 = if cap {
            EngineModel { next_char_upper: false, ..m }
        } else {
            m
        };
        if spec_is_word_boundary(key2) {
            if m0.buffer.len() == 0 && spec_is_valid_prefix(key2) {
                (EngineModel { shortcut_prefix: Some(key2), ..m0 }, out_passthrough())
            } else {
                spec_word_boundary(m0, key2)
            }
        } else {
            let text = spec_text(m0.buffer);
            let foreign = m0.spell_check && spec_foreign_word_pattern(
                spec_lower_seq(text),
                Some(key2),
            );
            let m1 = if foreign {
                EngineModel { possible_foreign: true, ..m0 }
            } else {
                m0
            };
            let prev = if m1.buffer.len() > 0 {
                Some(m1.buffer.last().ch)
            } else {
                None
            };
            let action = m1.method.spec_classify(key2, prev);
            match action {
                KeyAction::Ordinary => spec_regular_char(m1, key2),
                KeyAction::Tone(t) => {
                    if m1.possible_foreign {
                        spec_regular_char(m1, key2)
                    } else if m1.method == Method::Vni && spec_vni_guard(text) {
                        spec_regular_char(m1, key2)
                    } else {
                        spec_apply_tone(m1, t, key2)
                    }
                },
                KeyAction::Modifier(md) => {
                    if m1.possible_foreign {
                        spec_regular_char(m1, key2)
                    } else if m1.method == Method::Vni && spec_vni_guard(text) {
                        spec_regular_char(m1, key2)
                    } else {
                        spec_apply_modifier(m1, md, key2)
                    }
                },
                KeyAction::Stroke => spec_apply_stroke(m1),
                KeyAction::RemoveDiacritics => spec_remove_all(m1),
                KeyAction::Undo => spec_undo_last(m1),
                KeyAction::QuickTelex(c1, c2) => spec_quick_telex(m1, c1, c2),
                KeyAction::InsertChar(c) => spec_insert_char(m1, c),
            }
        }
    }
}


/// The character IME engine.
#[derive(Debug)]
pub struct Engine {
    pub buffer: Buffer,
    pub method: Method,
    pub method_name: String,
    pub enabled: bool,
    pub shortcuts: ShortcutTable,
    pub last_transform: LastTransform,
    pub possible_foreign: bool,
    pub shortcut_prefix: Option<char>,
    pub auto_capitalize: bool,
    pub smart_quotes: bool,
    pub spell_check: bool,
    pub modern_style: bool,
    pub next_char_upper: bool,
    pub last_committed_char: Option<char>,
}

impl Engine {
    /// The ghost state of this engine.
    pub open spec fn model(&self) -> EngineModel {
        EngineModel {
            buffer: self.buffer.chars@,
            method: self.method,
            method_name: self.method_name@,
            enabled: self.enabled,
            table_enabled: self.shortcuts.enabled,
            table: self.shortcuts.shortcuts@,
            last_transform: self.last_transform,
            possible_foreign: self.possible_foreign,
            shortcut_prefix: self.shortcut_prefix,
            auto_capitalize: self.auto_capitalize,
            smart_quotes: self.smart_quotes,
            spell_check: self.spell_check,
            modern_style: self.modern_style,
            next_char_upper: self.next_char_upper,
            last_committed_char: self.last_committed_char,
        }
    }

    /// The buffer within capacity and the shortcut triggers unique.
    pub open spec fn wf(&self) -> bool {
        self.buffer.wf() && self.shortcuts.wf()
    }

    /// A fresh engine: Telex, enabled, the default shortcuts, modern tone
    /// placement, auto-capitalisation armed.
    pub fn new() -> (r: Self)
        ensures
            r.wf(),
            r.model().buffer.len() == 0,
            r.model().method == Method::Telex,
            r.model().method_name == "telex"@,
            r.model().enabled,
            r.model().table_enabled,
            r.model().last_transform == spec_lt_default(),
            !r.model().possible_foreign,
            r.model().shortcut_prefix is None,
            r.model().auto_capitalize,
            !r.model().smart_quotes,
            r.model().spell_check,
            r.model().modern_style,
            r.model().next_char_upper,
            r.model().last_committed_char is None,
            r.model().table.len() == 5,
            r.model().table[0].trigger@ == "vn"@ && r.model().table[0].replacement@
                == "Việt Nam"@ && r.model().table[0].condition
                == crate::shortcut::TriggerCondition::OnWordBoundary && r.model().table[0].enabled,
            r.model().table[1].trigger@ == "hcm"@ && r.model().table[1].replacement@
                == "Hồ Chí Minh"@ && r.model().table[1].condition
                == crate::shortcut::TriggerCondition::OnWordBoundary && r.model().table[1].enabled,
            r.model().table[2].trigger@ == "hn"@ && r.model().table[2].replacement@ == "Hà Nội"@
                && r.model().table[2].condition
                == crate::shortcut::TriggerCondition::OnWordBoundary && r.model().table[2].enabled,
            r.model().table[3].trigger@ == "dc"@ && r.model().table[3].replacement@ == "được"@
                && r.model().table[3].condition == crate::shortcut::TriggerCondition::Immediate
                && r.model().table[3].enabled,
            r.model().table[4].trigger@ == "ko"@ && r.model().table[4].replacement@ == "không"@
                && r.model().table[4].condition
                == crate::shortcut::TriggerCondition::OnWordBoundary && r.model().table[4].enabled,
    {
        Engine {
            buffer: Buffer::new(),
            method: Method::Telex,
            method_name: String::from_str("telex"),
            enabled: true,
            shortcuts: ShortcutTable::with_defaults(),
            last_transform: lt_default(),
            possible_foreign: false,
            shortcut_prefix: None,
            auto_capitalize: true,
            smart_quotes: false,
            spell_check: true,
            modern_style: true,
            next_char_upper: true,
            last_committed_char: None,
        }
    }

    /// Select the input method by name and start a fresh word.
    pub fn set_method(&mut self, name: &str)
        requires
            old(self).wf(),
        ensures
            final(self).wf(),
            final(self).method == (if spec_lower_seq(name@) =~= seq!['v', 'n', 'i'] {
                Method::Vni
            } else {
                Method::Telex
            }),
            final(self).method_name@ == spec_lower_seq(name@),
            final(self).buffer.chars@.len() == 0,
            final(self).last_transform == spec_lt_default(),
            !final(self).possible_foreign,
            *final(self) == (Engine {
                method: final(self).method,
                method_name: final(self).method_name,
                buffer: final(self).buffer,
                last_transform: spec_lt_default(),
                possible_foreign: false,
                ..*old(self)
            }),
    {
        self.method = crate::methods::get_method(name);
        let chars = chars_of_str(name);
        let low = crate::validation::lower_chars(&chars);
        self.method_name = string_of_chars(&low);
        self.buffer.clear();
        self.reset_state();
    }

    /// Set the text-assist options.
    pub fn set_options(&mut self, auto_capitalize: bool, smart_quotes: bool, spell_check: bool)
        requires
            old(self).wf(),
        ensures
            final(self).wf(),
            *final(self) == (Engine {
                auto_capitalize,
                smart_quotes,
                spell_check,
                ..*old(self)
            }),
    {
        self.auto_capitalize = auto_capitalize;
        self.smart_quotes = smart_quotes;
        self.spell_check = spell_check;
    }

    /// Read the text-assist options.
    pub fn get_options(&self) -> (r: (bool, bool, bool))
        ensures
            r == (self.auto_capitalize, self.smart_quotes, self.spell_check),
    {
        (self.auto_capitalize, self.smart_quotes, self.spell_check)
    }

    /// Choose between modern and traditional tone placement.
    pub fn set_modern_style(&mut self, modern: bool)
        requires
            old(self).wf(),
        ensures
            final(self).wf(),
            *final(self) == (Engine { modern_style: modern, ..*old(self) }),
    {
        self.modern_style = modern;
    }

    /// The selected method's name.
    pub fn get_method(&self) -> (r: &str)
        ensures
            r@ == self.method_name@,
    {
        self.method_name.as_str()
    }

    /// Install a shortcut table.
    pub fn set_shortcuts(&mut self, shortcuts: ShortcutTable)
        requires
            old(self).wf(),
            shortcuts.wf(),
        ensures
            final(self).wf(),
            *final(self) == (Engine { shortcuts, ..*old(self) }),
    {
        self.shortcuts = shortcuts;
    }

    /// Add a word-boundary shortcut.
    pub fn add_shortcut(&mut self, trigger: &str, replacement: &str)
        requires
            old(self).wf(),
        ensures
            final(self).wf(),
            final(self).shortcuts.shortcuts@.len() >= 1,
            final(self).shortcuts.shortcuts@.last().trigger@ == trigger@,
            final(self).shortcuts.shortcuts@.last().replacement@
                == crate::shortcut::spec_capped(replacement@),
            final(self).shortcuts.shortcuts@.last().condition
                == crate::shortcut::TriggerCondition::OnWordBoundary,
            final(self).shortcuts.shortcuts@.last().enabled,
            ({
                let o = old(self).shortcuts.shortcuts@;
                let t = final(self).shortcuts.shortcuts@;
                match crate::shortcut::spec_find_trigger(o, trigger@, 0) {
                    Some(i) => t == o.remove(i).push(t.last()),
                    None => t == o.push(t.last()),
                }
            }),
            final(self).shortcuts.enabled == old(self).shortcuts.enabled,
            *final(self) == (Engine { shortcuts: final(self).shortcuts, ..*old(self) }),
    {
        self.shortcuts.add(crate::shortcut::Shortcut::new(trigger, replacement));
    }

    /// Remove a shortcut by trigger.
    pub fn remove_shortcut(&mut self, trigger: &str)
        requires
            old(self).wf(),
        ensures
            final(self).wf(),
            forall|i: int|
                0 <= i < final(self).shortcuts.shortcuts@.len()
                    ==> final(self).shortcuts.shortcuts@[i].trigger@ != trigger@,
            ({
                let o = old(self).shortcuts.shortcuts@;
                let t = final(self).shortcuts.shortcuts@;
                match crate::shortcut::spec_find_trigger(o, trigger@, 0) {
                    Some(i) => t == o.remove(i),
                    None => t == o,
                }
            }),
            final(self).shortcuts.enabled == old(self).shortcuts.enabled,
            *final(self) == (Engine { shortcuts: final(self).shortcuts, ..*old(self) }),
    {
        proof {
            lemma_no_trigger_after_remove(self.shortcuts.shortcuts@, trigger@);
        }
        self.shortcuts.remove(trigger);
    }

    /// Flip a shortcut's enabled flag.
    pub fn toggle_shortcut(&mut self, trigger: &str)
        requires
            old(self).wf(),
        ensures
            final(self).wf(),
            ({
                let o = old(self).shortcuts.shortcuts@;
                let t = final(self).shortcuts.shortcuts@;
                match crate::shortcut::spec_find_trigger(o, trigger@, 0) {
                    Some(i) => t == o.update(
                        i,
                        crate::shortcut::Shortcut { enabled: !o[i].enabled, ..o[i] },
                    ),
                    None => t == o,
                }
            }),
            final(self).shortcuts.enabled == old(self).shortcuts.enabled,
            *final(self) == (Engine { shortcuts: final(self).shortcuts, ..*old(self) }),
    {
        self.shortcuts.toggle(trigger);
    }

    /// Copies of all shortcuts.
    pub fn get_shortcuts(&self) -> (r: Vec<Shortcut>)
        ensures
            r@ == self.shortcuts.shortcuts@,
    {
        self.shortcuts.get_all()
    }

    /// Start a fresh word.
    pub fn clear(&mut self)
        requires
            old(self).wf(),
        ensures
            final(self).wf(),
            final(self).buffer.chars@.len() == 0,
            final(self).shortcut_prefix is None,
            final(self).last_transform == spec_lt_default(),
            !final(self).possible_foreign,
            final(self).enabled == old(self).enabled,
            final(self).shortcuts.shortcuts@ == old(self).shortcuts.shortcuts@,
    {
        self.buffer.clear();
        self.shortcut_prefix = None;
        self.reset_state();
    }

    /// The composed text of the current word.
    pub fn get_buffer(&self) -> (r: String)
        ensures
            r@ == spec_text(self.buffer.chars@),
    {
        self.buffer.get_text()
    }

    /// The raw keystrokes of the current word.
    pub fn get_raw_buffer(&self) -> (r: String)
        ensures
            r@ == spec_raw(self.buffer.chars@),
    {
        self.buffer.get_raw()
    }

    /// Mirror an external backspace: drop the last position and answer the
    /// previous length.
    pub fn backspace(&mut self) -> (r: usize)
        requires
            old(self).wf(),
        ensures
            final(self).wf(),
            r == old(self).buffer.chars@.len(),
            final(self).buffer.chars@ == if old(self).buffer.chars@.len() > 0 {
                old(self).buffer.chars@.drop_last()
            } else {
                old(self).buffer.chars@
            },
    {
        let n = self.buffer.len();
        self.buffer.pop();
        n
    }

    /// Whether the engine is switched on.
    pub fn is_enabled(&self) -> (r: bool)
        ensures
            r == self.enabled,
    {
        self.enabled
    }

    /// Flip the engine on or off; switching off drops the word.
    pub fn toggle(&mut self)
        requires
            old(self).wf(),
        ensures
            final(self).wf(),
            final(self).enabled == !old(self).enabled,
            !final(self).enabled ==> final(self).buffer.chars@.len() == 0,
            old(self).enabled == false ==> final(self).buffer == old(self).buffer,
    {
        let now = !self.enabled;
        self.set_enabled(now);
    }

    /// Switch the engine on or off; switching off drops the word.
    pub fn set_enabled(&mut self, enabled: bool)
        requires
            old(self).wf(),
        ensures
            final(self).wf(),
            final(self).enabled == enabled,
            !enabled ==> final(self).buffer.chars@.len() == 0 && !final(self).possible_foreign
                && final(self).last_transform == spec_lt_default(),
            enabled ==> final(self).buffer == old(self).buffer,
    {
        self.enabled = enabled;
        if !enabled {
            self.buffer.clear();
            self.reset_state();
        }
    }

    /// Whether the next alphabetic key will be capitalised.
    pub fn is_next_char_upper(&self) -> (r: bool)
        ensures
            r == self.next_char_upper,
    {
        self.next_char_upper
    }

    /// The pending shortcut-prefix sigil.
    pub fn active_prefix(&self) -> (r: Option<char>)
        ensures
            r == self.shortcut_prefix,
    {
        self.shortcut_prefix
    }

    /// Forget the per-word transient state.
    fn reset_state(&mut self)
        ensures
            *final(self) == (Engine {
                last_transform: spec_lt_default(),
                possible_foreign: false,
                ..*old(self)
            }),
    {
        self.last_transform = lt_default();
        self.possible_foreign = false;
    }
}

impl Default for Engine {
    fn default() -> (r: Self)
        ensures
            r.wf(),
            r.model().buffer.len() == 0,
            r.model().enabled,
    {
        Engine::new()
    }
}

/// After removing a trigger from a table with unique triggers, no entry
/// carries it.
proof fn lemma_no_trigger_after_remove(entries: Seq<Shortcut>, t: Seq<char>)
    requires
        forall|a: int, b: int|
            0 <= a < b < entries.len() ==> entries[a].trigger@ != entries[b].trigger@,
    ensures
        ({
            match crate::shortcut::spec_find_trigger(entries, t, 0) {
                Some(i) => forall|j: int|
                    0 <= j < entries.remove(i).len() ==> entries.remove(i)[j].trigger@ != t,
                None => forall|j: int| 0 <= j < entries.len() ==> entries[j].trigger@ != t,
            }
        }),
{
    lemma_find_trigger_facts(entries, t, 0);
    match crate::shortcut::spec_find_trigger(entries, t, 0) {
        Some(i) => {
            assert forall|j: int| 0 <= j < entries.remove(i).len() implies entries.remove(
                i,
            )[j].trigger@ != t by {
                if j < i {
                    assert(entries.remove(i)[j] == entries[j]);
                } else {
                    assert(entries.remove(i)[j] == entries[j + 1]);
                }
            }
        },
        None => (),
    }
}

proof fn lemma_find_trigger_facts(entries: Seq<Shortcut>, t: Seq<char>, i: int)
    requires
        0 <= i,
    ensures
        ({
            match crate::shortcut::spec_find_trigger(entries, t, i) {
                Some(k) => i <= k < entries.len() && entries[k].trigger@ == t,
                None => forall|j: int| i <= j < entries.len() ==> entries[j].trigger@ != t,
            }
        }),
    decreases entries.len() - i,
{
    if i < entries.len() && entries[i].trigger@ != t {
        lemma_find_trigger_facts(entries, t, i + 1);
    }
}


/// A result answers a ghost output exactly.
pub open spec fn out_matches(r: ProcessResult, o: SpecOut) -> bool {
    r.action == o.action && r.output@ == o.output && r.backspace as int == o.backspace
        && r.restored == o.restored
}

fn any_vowel_chars(v: &Vec<char>) -> (r: bool)
    ensures
        r == spec_any_vowel(v@),
{
    let mut i: usize = 0;
    while i < v.len()
        invariant
            i <= v@.len(),
            forall|j: int| 0 <= j < i ==> !crate::chars::spec_is_vowel_char(v@[j]),
        decreases v@.len() - i,
    {
        if crate::chars::is_vowel(v[i]) {
            return true;
        }
        i += 1;
    }
    false
}

fn any_mark_chars(v: &Vec<char>) -> (r: bool)
    ensures
        r == spec_any_mark(v@),
{
    let mut i: usize = 0;
    while i < v.len()
        invariant
            i <= v@.len(),
            forall|j: int| 0 <= j < i ==> spec_get_base(v@[j]) == v@[j],
        decreases v@.len() - i,
    {
        if crate::chars::get_base(v[i]) != v[i] {
            return true;
        }
        i += 1;
    }
    false
}

fn last_d_pos(v: &Vec<char>) -> (r: Option<usize>)
    ensures
        r == spec_last_d(v@, v@.len() - 1),
        r matches Some(p) ==> p < v@.len(),
{
    let mut k: usize = v.len();
    while k > 0
        invariant
            k <= v@.len(),
            spec_last_d(v@, v@.len() - 1) == spec_last_d(v@, k - 1),
        decreases k,
    {
        let l = lower_char(v[k - 1]);
        if l == 'd' || l == 'đ' {
            return Some(k - 1);
        }
        k -= 1;
    }
    None
}

fn vni_guard(text: &Vec<char>) -> (r: bool)
    ensures
        r == spec_vni_guard(text@),
{
    if !any_vowel_chars(text) {
        return true;
    }
    if text.len() > 0 && crate::chars::is_consonant(text[text.len() - 1]) {
        return true;
    }
    false
}

impl Engine {
    /// Handle an ordinary character: push it, try the immediate shortcuts,
    /// and report the change as a minimal edit script.
    #[verifier::rlimit(100)]
    fn regular_char(&mut self, key: char) -> (r: ProcessResult)
        requires
            old(self).wf(),
        ensures
            final(self).wf(),
            final(self).model() == spec_regular_char(old(self).model(), key).0,
            out_matches(r, spec_regular_char(old(self).model(), key).1),
    {
        let old_chars = self.buffer.text_chars();
        self.buffer.push_simple(key);
        self.last_transform = lt_default();
        let new_chars = self.buffer.text_chars();
        let mut full: Vec<char> = Vec::new();
        match self.shortcut_prefix {
            Some(p) => {
                full.push(p);
            },
            None => (),
        }
        let mut i: usize = 0;
        while i < new_chars.len()
            invariant
                i <= new_chars@.len(),
                full@ == spec_with_prefix(self.shortcut_prefix, new_chars@.take(i as int)),
                self.shortcut_prefix == old(self).shortcut_prefix,
            decreases new_chars@.len() - i,
        {
            full.push(new_chars[i]);
            i += 1;
            proof {
                assert(full@ =~= spec_with_prefix(
                    self.shortcut_prefix,
                    new_chars@.take(i as int),
                ));
            }
        }
        proof {
            assert(new_chars@.take(new_chars@.len() as int) =~= new_chars@);
        }
        let full_str = string_of_chars(&full);
        let matched = self.shortcuts.try_match(full_str.as_str(), None, false);
        match matched {
            Some(m) => {
                let backspace = if self.shortcut_prefix.is_some() {
                    old_chars.len() + 1
                } else {
                    old_chars.len()
                };
                self.shortcut_prefix = None;
                let rep = chars_of_str(m.replacement.as_str());
                let mut nb = Buffer::new();
                let mut k: usize = 0;
                while k < rep.len()
                    invariant
                        k <= rep@.len(),
                        nb.wf(),
                        nb.chars@ == spec_push_upto(Seq::empty(), rep@, k as int),
                    decreases rep@.len() - k,
                {
                    nb.push_simple(rep[k]);
                    k += 1;
                }
                self.buffer = nb;
                let text = self.buffer.get_text();
                ProcessResult::update(text, backspace)
            },
            None => {
                let (bs, ins) = compute_edit(&old_chars, &new_chars);
                ProcessResult::update(string_of_chars(&ins), bs)
            },
        }
    }

    /// Handle a word boundary: a boundary shortcut wins; otherwise the word
    /// is validated and committed or restored, and the per-word state is
    /// reset.
    #[verifier::rlimit(100)]
    fn handle_word_boundary(&mut self, key: char) -> (r: ProcessResult)
        requires
            old(self).wf(),
        ensures
            final(self).wf(),
            final(self).model() == spec_word_boundary(old(self).model(), key).0,
            out_matches(r, spec_word_boundary(old(self).model(), key).1),
    {
        if self.buffer.is_empty() {
            self.shortcut_prefix = None;
            return ProcessResult::passthrough();
        }
        let text = self.buffer.text_chars();
        let mut full: Vec<char> = Vec::new();
        match self.shortcut_prefix {
            Some(p) => {
                full.push(p);
            },
            None => (),
        }
        let mut i: usize = 0;
        while i < text.len()
            invariant
                i <= text@.len(),
                full@ == spec_with_prefix(self.shortcut_prefix, text@.take(i as int)),
                self.shortcut_prefix == old(self).shortcut_prefix,
            decreases text@.len() - i,
        {
            full.push(text[i]);
            i += 1;
            proof {
                assert(full@ =~= spec_with_prefix(self.shortcut_prefix, text@.take(i as int)));
            }
        }
        proof {
            assert(text@.take(text@.len() as int) =~= text@);
        }
        let full_str = string_of_chars(&full);
        let matched = self.shortcuts.try_match(full_str.as_str(), None, true);
        match matched {
            Some(m) => {
                let backspace = if self.shortcut_prefix.is_some() {
                    self.buffer.len() + 1
                } else {
                    self.buffer.len()
                };
                self.buffer.clear();
                self.shortcut_prefix = None;
                self.reset_state();
                let mut output = m.replacement;
                output.push(key);
                self.last_committed_char = Some(key);
                if (key == '.' || key == '!' || key == '?') && self.auto_capitalize {
                    self.next_char_upper = true;
                }
                ProcessResult::update(output, backspace)
            },
            None => {
                let v = crate::validation::validate_chars(&text);
                let should_restore = (v == ValidationResult::ForeignWord && self.spell_check) || v
                    == ValidationResult::InvalidVowelPattern || v
                    == ValidationResult::InvalidSpelling;
                let raw = self.buffer.raw_chars();
                let differs = !crate::shortcut::vec_eq(&text, &raw);
                if should_restore && differs {
                    let backspace = text.len();
                    let mut output = string_of_chars(&raw);
                    output.push(key);
                    self.buffer.clear();
                    self.shortcut_prefix = None;
                    self.reset_state();
                    self.last_committed_char = Some(key);
                    if (key == '.' || key == '!' || key == '?') && self.auto_capitalize {
                        self.next_char_upper = true;
                    }
                    ProcessResult::restore(output, backspace)
                } else {
                    let mut output = string_of_chars(&text);
                    output.push(key);
                    self.buffer.clear();
                    self.shortcut_prefix = None;
                    self.reset_state();
                    self.last_committed_char = Some(key);
                    if (key == '.' || key == '!' || key == '?') && self.auto_capitalize {
                        self.next_char_upper = true;
                    }
                    ProcessResult::commit(output)
                }
            },
        }
    }

    /// Apply a tone request.
    #[verifier::rlimit(100)]
    fn apply_tone(&mut self, tone: ToneMark, raw_key: char) -> (r: ProcessResult)
        requires
            old(self).wf(),
        ensures
            final(self).wf(),
            final(self).model() == spec_apply_tone(old(self).model(), tone, raw_key).0,
            out_matches(r, spec_apply_tone(old(self).model(), tone, raw_key).1),
    {
        let text = self.buffer.text_chars();
        let n_text = text.len();
        proof {
            assert(text@.len() == n_text);
            crate::transform::lemma_char_vowel_indices_in_range(text@);
        }
        let vi = crate::transform::find_vowel_indices(text.as_slice());
        if vi.len() > 0 {
            let last = vi[vi.len() - 1];
            let c = text[last];
            if crate::transform::should_undo_tone(c, tone) {
                let (without, _was) = crate::transform::remove_tone(c);
                self.buffer.replace(last, without);
                self.buffer.push_simple(raw_key);
                self.last_transform = LastTransform {
                    position: Some(last),
                    transform_type: TransformType::Unset,
                    original: None,
                };
                let new_chars = self.buffer.text_chars();
                let (bs, ins) = compute_edit(&text, &new_chars);
                return ProcessResult::update(string_of_chars(&ins), bs);
            }
        }
        match engine_tone_position(&text, self.modern_style) {
            Some(pos) => {
                match tone_target_char(&text, pos, tone) {
                    Some(nc) => {
                        proof {
                            assert(pos < text@.len());
                        }
                        let old_char = text[pos];
                        self.buffer.replace(pos, nc);
                        self.last_transform = LastTransform {
                            position: Some(pos),
                            transform_type: TransformType::Tone(tone),
                            original: Some(old_char),
                        };
                        let new_chars = self.buffer.text_chars();
                        let (bs, ins) = compute_edit(&text, &new_chars);
                        ProcessResult::update(string_of_chars(&ins), bs)
                    },
                    None => self.regular_char(raw_key),
                }
            },
            None => self.regular_char(raw_key),
        }
    }

    /// Apply a modifier request.
    #[verifier::rlimit(100)]
    fn apply_modifier(&mut self, modifier: VowelMod, raw_key: char) -> (r: ProcessResult)
        requires
            old(self).wf(),
        ensures
            final(self).wf(),
            final(self).model() == spec_apply_modifier(old(self).model(), modifier, raw_key).0,
            out_matches(r, spec_apply_modifier(old(self).model(), modifier, raw_key).1),
    {
        let text = self.buffer.text_chars();
        if modifier == VowelMod::Horn {
            match find_uo_pos(&text) {
                Some(pos) => {
                    let mut c2 = self.buffer.text_chars();
                    let res = crate::transform::apply_uo_compound(&mut c2, pos);
                    if res.success {
                        self.buffer.replace(pos, c2[pos]);
                        self.buffer.replace(pos + 1, c2[pos + 1]);
                        self.last_transform = LastTransform {
                            position: Some(pos),
                            transform_type: TransformType::Modifier(modifier),
                            original: None,
                        };
                        let new_chars = self.buffer.text_chars();
                        let (bs, ins) = compute_edit(&text, &new_chars);
                        return ProcessResult::update(string_of_chars(&ins), bs);
                    }
                    return self.modifier_at_position(modifier, raw_key);
                },
                None => {
                    return self.modifier_at_position(modifier, raw_key);
                },
            }
        }
        self.modifier_at_position(modifier, raw_key)
    }

    /// The non-compound modifier path.
    #[verifier::rlimit(100)]
    fn modifier_at_position(&mut self, modifier: VowelMod, raw_key: char) -> (r: ProcessResult)
        requires
            old(self).wf(),
        ensures
            final(self).wf(),
            final(self).model() == spec_modifier_at_position(
                old(self).model(),
                modifier,
                raw_key,
            ).0,
            out_matches(r, spec_modifier_at_position(old(self).model(), modifier, raw_key).1),
    {
        let text = self.buffer.text_chars();
        match crate::transform::find_modifier_position(text.as_slice(), modifier) {
            Some(pos) => {
                let old_char = text[pos];
                if crate::transform::should_undo_modifier(old_char, modifier) {
                    let (without, _was) = crate::transform::remove_modifier(old_char);
                    self.buffer.replace(pos, without);
                    self.buffer.push_simple(raw_key);
                    let new_chars = self.buffer.text_chars();
                    let (bs, ins) = compute_edit(&text, &new_chars);
                    ProcessResult::update(string_of_chars(&ins), bs)
                } else {
                    match crate::chars::with_modifier(old_char, modifier) {
                        Some(nc) => {
                            self.buffer.replace(pos, nc);
                            self.last_transform = LastTransform {
                                position: Some(pos),
                                transform_type: TransformType::Modifier(modifier),
                                original: Some(old_char),
                            };
                            let new_chars = self.buffer.text_chars();
                            let (bs, ins) = compute_edit(&text, &new_chars);
                            ProcessResult::update(string_of_chars(&ins), bs)
                        },
                        None => self.regular_char(raw_key),
                    }
                }
            },
            None => self.regular_char(raw_key),
        }
    }

    /// Apply a stroke request.
    #[verifier::rlimit(100)]
    fn apply_stroke(&mut self) -> (r: ProcessResult)
        requires
            old(self).wf(),
        ensures
            final(self).wf(),
            final(self).model() == spec_apply_stroke(old(self).model()).0,
            out_matches(r, spec_apply_stroke(old(self).model()).1),
    {
        let text = self.buffer.text_chars();
        match last_d_pos(&text) {
            Some(pos) => {
                let has_vowel = any_vowel_chars(&text);
                let has_mark = any_mark_chars(&text);
                if has_vowel && !has_mark && text.len() > 3 {
                    let v = crate::validation::validate_chars(&text);
                    if !v.is_valid() {
                        return ProcessResult::passthrough();
                    }
                }
                let ch = text[pos];
                let nc = crate::transform::toggle_stroke(ch);
                self.buffer.replace(pos, nc);
                self.last_transform = LastTransform {
                    position: Some(pos),
                    transform_type: TransformType::Stroke,
                    original: Some(ch),
                };
                let new_chars = self.buffer.text_chars();
                let (bs, ins) = compute_edit(&text, &new_chars);
                ProcessResult::update(string_of_chars(&ins), bs)
            },
            None => ProcessResult::passthrough(),
        }
    }

    /// Strip every diacritic from the buffer.
    #[verifier::rlimit(100)]
    fn remove_all_diacritics(&mut self) -> (r: ProcessResult)
        requires
            old(self).wf(),
        ensures
            final(self).wf(),
            final(self).model() == spec_remove_all(old(self).model()).0,
            out_matches(r, spec_remove_all(old(self).model()).1),
    {
        let text = self.buffer.text_chars();
        let mut changed = false;
        let mut i: usize = 0;
        let n = self.buffer.len();
        while i < n
            invariant
                i <= n,
                n == old(self).buffer.chars@.len(),
                self.buffer.wf(),
                old(self).buffer.wf(),
                (self.buffer.chars@, changed) == spec_strip_all(
                    old(self).buffer.chars@,
                    i as int,
                ),
                self.last_transform == old(self).last_transform,
                self.shortcut_prefix == old(self).shortcut_prefix,
                self.method == old(self).method,
                self.method_name == old(self).method_name,
                self.enabled == old(self).enabled,
                self.shortcuts == old(self).shortcuts,
                self.possible_foreign == old(self).possible_foreign,
                self.auto_capitalize == old(self).auto_capitalize,
                self.smart_quotes == old(self).smart_quotes,
                self.spell_check == old(self).spell_check,
                self.modern_style == old(self).modern_style,
                self.next_char_upper == old(self).next_char_upper,
                self.last_committed_char == old(self).last_committed_char,
            decreases n - i,
        {
            proof {
                assert(spec_strip_all(old(self).buffer.chars@, i as int).0.len() == old(
                    self,
                ).buffer.chars@.len()) by {
                    lemma_strip_all_len(old(self).buffer.chars@, i as int);
                }
            }
            let cur = match self.buffer.get(i) {
                Some(bc) => bc.ch,
                None => ' ',
            };
            let stripped = crate::transform::remove_diacritics(cur);
            if stripped != cur {
                self.buffer.replace(i, stripped);
                changed = true;
            }
            i += 1;
        }
        if changed {
            self.last_transform = lt_default();
            let new_chars = self.buffer.text_chars();
            let (bs, ins) = compute_edit(&text, &new_chars);
            ProcessResult::update(string_of_chars(&ins), bs)
        } else {
            ProcessResult::passthrough()
        }
    }

    /// Revert the last transformation.
    #[verifier::rlimit(100)]
    fn undo_last_transform(&mut self) -> (r: ProcessResult)
        requires
            old(self).wf(),
        ensures
            final(self).wf(),
            final(self).model() == spec_undo_last(old(self).model()).0,
            out_matches(r, spec_undo_last(old(self).model()).1),
    {
        let pos_opt = self.last_transform.position;
        let orig_opt = self.last_transform.original;
        match (pos_opt, orig_opt) {
            (Some(pos), Some(orig)) => {
                if pos < self.buffer.len() {
                    let text = self.buffer.text_chars();
                    self.buffer.replace(pos, orig);
                    self.last_transform = lt_default();
                    let new_chars = self.buffer.text_chars();
                    let (bs, ins) = compute_edit(&text, &new_chars);
                    ProcessResult::update(string_of_chars(&ins), bs)
                } else {
                    ProcessResult::passthrough()
                }
            },
            _ => ProcessResult::passthrough(),
        }
    }

    /// Expand a doubled consonant into its cluster.
    #[verifier::rlimit(100)]
    fn apply_quick_telex(&mut self, c1: char, c2: char) -> (r: ProcessResult)
        requires
            old(self).wf(),
        ensures
            final(self).wf(),
            final(self).model() == spec_quick_telex(old(self).model(), c1, c2).0,
            out_matches(r, spec_quick_telex(old(self).model(), c1, c2).1),
    {
        let text = self.buffer.text_chars();
        let popped = self.buffer.pop();
        let was_upper = match popped {
            Some(bc) => lower_char(bc.ch) != bc.ch,
            None => false,
        };
        let first = if was_upper {
            upper_char(c1)
        } else {
            c1
        };
        self.buffer.push_simple(first);
        self.buffer.push_simple(c2);
        self.last_transform = lt_default();
        let new_chars = self.buffer.text_chars();
        let (bs, ins) = compute_edit(&text, &new_chars);
        ProcessResult::update(string_of_chars(&ins), bs)
    }

    /// Insert a character directly.
    #[verifier::rlimit(100)]
    fn insert_char_directly(&mut self, c: char) -> (r: ProcessResult)
        requires
            old(self).wf(),
        ensures
            final(self).wf(),
            final(self).model() == spec_insert_char(old(self).model(), c).0,
            out_matches(r, spec_insert_char(old(self).model(), c).1),
    {
        let text = self.buffer.text_chars();
        self.buffer.push_simple(c);
        self.last_transform = lt_default();
        let new_chars = self.buffer.text_chars();
        let (bs, ins) = compute_edit(&text, &new_chars);
        ProcessResult::update(string_of_chars(&ins), bs)
    }

    /// Process one key.
    ///
    /// The whole pipeline — smart quotes, auto-capitalisation, word
    /// boundaries with shortcut expansion and auto-restore, foreign-word
    /// marking, and the selected method's transformations — implements
    /// [`spec_process_key`] exactly.  The shift hint is unused: case is
    /// read off the code point itself.
    #[verifier::rlimit(100)]
    pub fn process_key(&mut self, key: char, _shift: bool) -> (r: ProcessResult)
        requires
            old(self).wf(),
        ensures
            final(self).wf(),
            final(self).model() == spec_process_key(old(self).model(), key).0,
            out_matches(r, spec_process_key(old(self).model(), key).1),
    {
        if !self.enabled {
            return ProcessResult::passthrough();
        }
        if self.smart_quotes && (key == '"' || key == '\'') {
            let is_open = self.buffer.is_empty() && (match self.last_committed_char {
                Some(c) => is_whitespace(c),
                None => true,
            });
            let quote = if key == '"' {
                if is_open {
                    '\u{201c}'
                } else {
                    '\u{201d}'
                }
            } else {
                if is_open {
                    '\u{2018}'
                } else {
                    '\u{2019}'
                }
            };
            return self.regular_char(quote);
        }
        let mut key2 = key;
        if self.auto_capitalize && self.next_char_upper && is_alphabetic(key) {
            key2 = upper_char(key);
            self.next_char_upper = false;
        }
        if crate::validation::is_word_boundary(key2) {
            if self.buffer.is_empty() && is_valid_prefix(key2) {
                self.shortcut_prefix = Some(key2);
                return ProcessResult::passthrough();
            }
            return self.handle_word_boundary(key2);
        }
        let text = self.buffer.text_chars();
        if self.spell_check {
            let low = crate::validation::lower_chars(&text);
            if crate::validation::foreign_word_pattern_chars(&low, Some(key2)) {
                self.possible_foreign = true;
            }
        }
        let prev = match self.buffer.last() {
            Some(bc) => Some(bc.ch),
            None => None,
        };
        let action = self.method.classify(key2, prev);
        match action {
            KeyAction::Ordinary => self.regular_char(key2),
            KeyAction::Tone(t) => {
                if self.possible_foreign {
                    self.regular_char(key2)
                } else if self.method == Method::Vni && vni_guard(&text) {
                    self.regular_char(key2)
                } else {
                    self.apply_tone(t, key2)
                }
            },
            KeyAction::Modifier(md) => {
                if self.possible_foreign {
                    self.regular_char(key2)
                } else if self.method == Method::Vni && vni_guard(&text) {
                    self.regular_char(key2)
                } else {
                    self.apply_modifier(md, key2)
                }
            },
            KeyAction::Stroke => self.apply_stroke(),
            KeyAction::RemoveDiacritics => self.remove_all_diacritics(),
            KeyAction::Undo => self.undo_last_transform(),
            KeyAction::QuickTelex(c1, c2) => self.apply_quick_telex(c1, c2),
            KeyAction::InsertChar(c) => self.insert_char_directly(c),
        }
    }
}

/// Stripping diacritics keeps the buffer length.
proof fn lemma_strip_all_len(buf: Seq<BufferChar>, k: int)
    ensures
        spec_strip_all(buf, k).0.len() == buf.len(),
    decreases k,
{
    if k > 0 {
        lemma_strip_all_len(buf, k - 1);
    }
}


/// When the strip pass reports no change, it really changed nothing.
proof fn lemma_strip_all_unchanged(buf: Seq<BufferChar>, k: int)
    requires
        !spec_strip_all(buf, k).1,
    ensures
        spec_strip_all(buf, k).0 == buf,
    decreases k,
{
    if k > 0 {
        lemma_strip_all_unchanged(buf, k - 1);
    }
}

/// A model with the per-word state put back to its initial values.
pub open spec fn spec_fresh_like(m: EngineModel) -> EngineModel {
    EngineModel {
        buffer: Seq::empty(),
        last_transform: spec_lt_default(),
        possible_foreign: false,
        shortcut_prefix: None,
        ..m
    }
}

/// A key the engine passes through leaves the buffer, the transform
/// record and every durable setting untouched.  Three transient flags may
/// still move: a boundary key may set or drop the prefix sigil, an
/// alphabetic key consumes the armed capitalisation, and the foreign mark
/// may be raised before a withheld stroke.
/// An ordinary character always answers with an update.
proof fn lemma_regular_char_updates(m: EngineModel, key: char)
    ensures
        spec_regular_char(m, key).1.action == Action::Update,
{
}

/// A tone request always answers with an update.
proof fn lemma_apply_tone_updates(m: EngineModel, tone: ToneMark, raw_key: char)
    ensures
        spec_apply_tone(m, tone, raw_key).1.action == Action::Update,
{
    let text = spec_text(m.buffer);
    match spec_engine_tone_position(text, m.modern_style) {
        Some(pos) => {
            match spec_tone_target_char(text, pos as int, tone) {
                Some(_) => (),
                None => lemma_regular_char_updates(m, raw_key),
            }
        },
        None => lemma_regular_char_updates(m, raw_key),
    }
}

/// A modifier request always answers with an update.
proof fn lemma_apply_modifier_updates(m: EngineModel, modifier: VowelMod, raw_key: char)
    ensures
        spec_apply_modifier(m, modifier, raw_key).1.action == Action::Update,
        spec_modifier_at_position(m, modifier, raw_key).1.action == Action::Update,
{
    let text = spec_text(m.buffer);
    match crate::transform::spec_find_modifier_position(text, modifier, text.len() - 1) {
        Some(pos) => {
            let old = text[pos as int];
            if !spec_should_undo_modifier(old, modifier) {
                match spec_with_modifier(old, modifier) {
                    Some(_) => (),
                    None => lemma_regular_char_updates(m, raw_key),
                }
            }
        },
        None => lemma_regular_char_updates(m, raw_key),
    }
}

#[verifier::rlimit(100)]
#[verifier::spinoff_prover]
pub proof fn lemma_passthrough_keeps_state(m: EngineModel, key: char)
    ensures
        ({
            let (m2, out) = spec_process_key(m, key);
            out.action == Action::Passthrough ==> m2 == (EngineModel {
                shortcut_prefix: m2.shortcut_prefix,
                next_char_upper: m2.next_char_upper,
                possible_foreign: m2.possible_foreign,
                ..m
            })
        }),
{
    let (m2, out) = spec_process_key(m, key);
    if !m.enabled {
        assert(m2 == m);
    } else if m.smart_quotes && (key == '"' || key == '\'') {
        lemma_regular_char_updates(m, spec_smart_quote(m, key));
        assert(out.action != Action::Passthrough);
    } else {
        let cap = m.auto_capitalize && m.next_char_upper && spec_is_alphabetic(key);
        let key2 = if cap {
            spec_upper_char(key)
        } else {
            key
        };
        let m0 = if cap {
            EngineModel { next_char_upper: false, ..m }
        } else {
            m
        };
        if spec_is_word_boundary(key2) {
            if m0.buffer.len() == 0 && spec_is_valid_prefix(key2) {
                assert(m2 == (EngineModel { shortcut_prefix: Some(key2), ..m0 }));
            } else {
                assert((m2, out) == spec_word_boundary(m0, key2));
                if out.action == Action::Passthrough {
                    assert(m2 == (EngineModel { shortcut_prefix: None, ..m0 }));
                }
            }
        } else {
            let text = spec_text(m0.buffer);
            let foreign = m0.spell_check && spec_foreign_word_pattern(
                spec_lower_seq(text),
                Some(key2),
            );
            let m1 = if foreign {
                EngineModel { possible_foreign: true, ..m0 }
            } else {
                m0
            };
            let prev = if m1.buffer.len() > 0 {
                Some(m1.buffer.last().ch)
            } else {
                None::<char>
            };
            match m1.method.spec_classify(key2, prev) {
                KeyAction::RemoveDiacritics => {
                    assert((m2, out) == spec_remove_all(m1));
                    if out.action == Action::Passthrough {
                        lemma_strip_all_unchanged(m1.buffer, m1.buffer.len() as int);
                        assert(m2 == m1);
                    }
                },
                KeyAction::Ordinary => {
                    lemma_regular_char_updates(m1, key2);
                    assert(out.action != Action::Passthrough);
                },
                KeyAction::Tone(t) => {
                    lemma_regular_char_updates(m1, key2);
                    lemma_apply_tone_updates(m1, t, key2);
                    assert(out.action != Action::Passthrough);
                },
                KeyAction::Modifier(md) => {
                    lemma_regular_char_updates(m1, key2);
                    lemma_apply_modifier_updates(m1, md, key2);
                    assert(out.action != Action::Passthrough);
                },
                KeyAction::Stroke => {
                    assert((m2, out) == spec_apply_stroke(m1));
                    if out.action == Action::Passthrough {
                        assert(m2 == m1);
                    }
                },
                KeyAction::Undo => {
                    assert((m2, out) == spec_undo_last(m1));
                    if out.action == Action::Passthrough {
                        assert(m2 == m1);
                    }
                },
                KeyAction::QuickTelex(c1, c2) => {
                    assert(out.action != Action::Passthrough);
                },
                KeyAction::InsertChar(c) => {
                    assert(out.action != Action::Passthrough);
                },
            }
        }
    }
}

/// A word-boundary outcome (a commit, a restore, or a boundary shortcut)
/// leaves the engine as freshly constructed, up to the option flags, the
/// method, the shortcut table, the armed capitalisation and the remembered
/// boundary key: the next word starts from a clean slate.
#[verifier::rlimit(100)]
pub proof fn lemma_word_boundary_resets(m: EngineModel, key: char)
    ensures
        ({
            let (m2, out) = spec_process_key(m, key);
            (out.action == Action::Commit || out.action == Action::Restore) ==> m2
                == spec_fresh_like(m2)
        }),
{
}

/// Boundary bookkeeping: every word-boundary outcome on a non-empty
/// buffer — shortcut expansion, restore and commit alike — remembers the
/// boundary key, arms capitalisation exactly on `.`, `!` and `?` under the
/// auto-capitalise option, and resets the per-word state.
pub proof fn lemma_boundary_bookkeeping(m: EngineModel, key: char)
    requires
        m.buffer.len() > 0,
    ensures
        ({
            let (m2, out) = spec_word_boundary(m, key);
            m2.last_committed_char == Some(key) && m2.next_char_upper == (if (key == '.' || key
                == '!' || key == '?') && m.auto_capitalize {
                true
            } else {
                m.next_char_upper
            }) && m2.buffer.len() == 0 && !m2.possible_foreign && m2.last_transform
                == spec_lt_default() && m2.shortcut_prefix is None
        }),
{
}

/// Double-press cancellation: when the rightmost vowel already carries the
/// requested tone, the tone request clears that tone and appends the raw
/// key instead.
pub proof fn lemma_double_press_cancels(m: EngineModel, tone: ToneMark, raw_key: char)
    requires
        m.buffer.len() < MAX_BUFFER_SIZE,
        ({
            let text = spec_text(m.buffer);
            let vi = crate::transform::spec_char_vowel_indices(text);
            vi.len() > 0 && spec_should_undo_tone(text[vi.last() as int], tone)
        }),
    ensures
        ({
            let text = spec_text(m.buffer);
            let vi = crate::transform::spec_char_vowel_indices(text);
            let (m2, out) = spec_apply_tone(m, tone, raw_key);
            m2.buffer.len() == m.buffer.len() + 1 && m2.buffer.last().ch == raw_key
                && spec_get_tone(m2.buffer[vi.last() as int].ch) == ToneMark::Level
        }),
{
    let text = spec_text(m.buffer);
    let vi = crate::transform::spec_char_vowel_indices(text);
    let last = vi.last();
    assert(text.len() == m.buffer.len());
    crate::transform::lemma_char_vowel_indices_in_range(text);
    assert(last < m.buffer.len());
    let c = text[last as int];
    assert(c == m.buffer[last as int].ch);
    crate::chars::lemma_remove_tone_clears(c);
    let without = spec_remove_tone(c).0;
    let buf1 = spec_push_simple(spec_replace(m.buffer, last, without), raw_key);
    assert(buf1.last().ch == raw_key);
    assert(buf1[last as int].ch == without);
}

/// The screen-mirror law.  Model the screen during a word as the pending
/// prefix sigil (which the host passed through) followed by the rendered
/// buffer.  Every update a non-boundary key produces turns that screen into
/// the new one: plain edits rewrite the changed tail behind the sigil, and
/// an immediate shortcut erases sigil and word together before typing the
/// replacement.
#[verifier::rlimit(100)]
pub proof fn lemma_update_mirrors_screen(m: EngineModel, key: char)
    ensures
        ({
            let cap = m.auto_capitalize && m.next_char_upper && spec_is_alphabetic(key);
            let key2 = if cap {
                spec_upper_char(key)
            } else {
                key
            };
            let at_boundary = m.enabled && !(m.smart_quotes && (key == '"' || key == '\''))
                && spec_is_word_boundary(key2);
            let (m2, out) = spec_process_key(m, key);
            (!at_boundary && out.action == Action::Update) ==> spec_apply_edit(
                spec_with_prefix(m.shortcut_prefix, spec_text(m.buffer)),
                out.backspace,
                out.output,
            ) == spec_with_prefix(m2.shortcut_prefix, spec_text(m2.buffer))
        }),
{
    if m.enabled {
        if m.smart_quotes && (key == '"' || key == '\'') {
            lemma_regular_char_mirrors(m, spec_smart_quote(m, key));
        } else {
            let cap = m.auto_capitalize && m.next_char_upper && spec_is_alphabetic(key);
            let key2 = if cap {
                spec_upper_char(key)
            } else {
                key
            };
            let m0 = if cap {
                EngineModel { next_char_upper: false, ..m }
            } else {
                m
            };
            if !spec_is_word_boundary(key2) {
                let text = spec_text(m0.buffer);
                let foreign = m0.spell_check && spec_foreign_word_pattern(
                    spec_lower_seq(text),
                    Some(key2),
                );
                let m1 = if foreign {
                    EngineModel { possible_foreign: true, ..m0 }
                } else {
                    m0
                };
                let prev = if m1.buffer.len() > 0 {
                    Some(m1.buffer.last().ch)
                } else {
                    None::<char>
                };
                match m1.method.spec_classify(key2, prev) {
                    KeyAction::Ordinary => lemma_regular_char_mirrors(m1, key2),
                    KeyAction::Tone(t) => {
                        lemma_regular_char_mirrors(m1, key2);
                        lemma_apply_tone_mirrors(m1, t, key2);
                    },
                    KeyAction::Modifier(md) => {
                        lemma_regular_char_mirrors(m1, key2);
                        lemma_apply_modifier_mirrors(m1, md, key2);
                    },
                    KeyAction::Stroke => {
                        lemma_prefixed_update(m1, spec_apply_stroke(m1));
                    },
                    KeyAction::RemoveDiacritics => {
                        lemma_prefixed_update(m1, spec_remove_all(m1));
                    },
                    KeyAction::Undo => {
                        lemma_prefixed_update(m1, spec_undo_last(m1));
                    },
                    KeyAction::QuickTelex(c1, c2) => {
                        lemma_prefixed_update(m1, spec_quick_telex(m1, c1, c2));
                    },
                    KeyAction::InsertChar(c) => {
                        lemma_prefixed_update(m1, spec_insert_char(m1, c));
                    },
                }
            }
        }
    }
}

/// A step that keeps the prefix and answers with a plain edit of the
/// rendering mirrors the screen.
proof fn lemma_prefixed_update(m: EngineModel, step: (EngineModel, SpecOut))
    requires
        step.1.action == Action::Update ==> step.0.shortcut_prefix == m.shortcut_prefix
            && (step.1.backspace, step.1.output) == spec_edit(
            spec_text(m.buffer),
            spec_text(step.0.buffer),
        ),
    ensures
        step.1.action == Action::Update ==> spec_apply_edit(
            spec_with_prefix(m.shortcut_prefix, spec_text(m.buffer)),
            step.1.backspace,
            step.1.output,
        ) == spec_with_prefix(step.0.shortcut_prefix, spec_text(step.0.buffer)),
{
    if step.1.action == Action::Update {
        let a = spec_text(m.buffer);
        let b = spec_text(step.0.buffer);
        match m.shortcut_prefix {
            Some(p) => {
                crate::differ::lemma_edit_behind_prefix(seq![p], a, b);
            },
            None => {
                crate::differ::lemma_edit_behind_prefix(Seq::empty(), a, b);
                assert(Seq::<char>::empty() + a =~= a);
                assert(Seq::<char>::empty() + b =~= b);
            },
        }
    }
}

/// An ordinary character mirrors the screen: a plain push edits the tail,
/// an immediate shortcut overwrites sigil and word together.
proof fn lemma_regular_char_mirrors(m: EngineModel, key: char)
    ensures
        ({
            let (m2, out) = spec_regular_char(m, key);
            spec_apply_edit(
                spec_with_prefix(m.shortcut_prefix, spec_text(m.buffer)),
                out.backspace,
                out.output,
            ) == spec_with_prefix(m2.shortcut_prefix, spec_text(m2.buffer))
        }),
{
    let (m2, out) = spec_regular_char(m, key);
    let old_text = spec_text(m.buffer);
    let buf1 = spec_push_simple(m.buffer, key);
    let full = spec_with_prefix(m.shortcut_prefix, spec_text(buf1));
    let screen = spec_with_prefix(m.shortcut_prefix, old_text);
    match spec_try_match(m.table_enabled, m.table, full, None, false) {
        Some(mm) => {
            assert(out.backspace == screen.len());
            crate::differ::lemma_edit_overwrites(screen, out.output);
            assert(spec_with_prefix(m2.shortcut_prefix, spec_text(m2.buffer)) == out.output);
        },
        None => {
            lemma_prefixed_update(m, (m2, out));
        },
    }
}

/// A tone request mirrors the screen.
proof fn lemma_apply_tone_mirrors(m: EngineModel, tone: ToneMark, raw_key: char)
    ensures
        ({
            let (m2, out) = spec_apply_tone(m, tone, raw_key);
            spec_apply_edit(
                spec_with_prefix(m.shortcut_prefix, spec_text(m.buffer)),
                out.backspace,
                out.output,
            ) == spec_with_prefix(m2.shortcut_prefix, spec_text(m2.buffer))
        }),
{
    let (m2, out) = spec_apply_tone(m, tone, raw_key);
    let text = spec_text(m.buffer);
    let vi = crate::transform::spec_char_vowel_indices(text);
    if vi.len() > 0 && spec_should_undo_tone(text[vi.last() as int], tone) {
        lemma_prefixed_update(m, (m2, out));
    } else {
        match spec_engine_tone_position(text, m.modern_style) {
            Some(pos) => match spec_tone_target_char(text, pos as int, tone) {
                Some(_) => lemma_prefixed_update(m, (m2, out)),
                None => lemma_regular_char_mirrors(m, raw_key),
            },
            None => lemma_regular_char_mirrors(m, raw_key),
        }
    }
}

/// A modifier request mirrors the screen.
proof fn lemma_apply_modifier_mirrors(m: EngineModel, modifier: VowelMod, raw_key: char)
    ensures
        ({
            let (m2, out) = spec_apply_modifier(m, modifier, raw_key);
            spec_apply_edit(
                spec_with_prefix(m.shortcut_prefix, spec_text(m.buffer)),
                out.backspace,
                out.output,
            ) == spec_with_prefix(m2.shortcut_prefix, spec_text(m2.buffer))
        }),
        ({
            let (m2, out) = spec_modifier_at_position(m, modifier, raw_key);
            spec_apply_edit(
                spec_with_prefix(m.shortcut_prefix, spec_text(m.buffer)),
                out.backspace,
                out.output,
            ) == spec_with_prefix(m2.shortcut_prefix, spec_text(m2.buffer))
        }),
{
    let text = spec_text(m.buffer);
    // The non-compound path first.
    match crate::transform::spec_find_modifier_position(text, modifier, text.len() - 1) {
        Some(pos) => {
            let old = text[pos as int];
            if spec_should_undo_modifier(old, modifier) {
                lemma_prefixed_update(m, spec_modifier_at_position(m, modifier, raw_key));
            } else {
                match spec_with_modifier(old, modifier) {
                    Some(_) => lemma_prefixed_update(
                        m,
                        spec_modifier_at_position(m, modifier, raw_key),
                    ),
                    None => lemma_regular_char_mirrors(m, raw_key),
                }
            }
        },
        None => lemma_regular_char_mirrors(m, raw_key),
    }
    // Then the horn compound.
    let compound = if modifier == VowelMod::Horn {
        spec_uo_pos(text, 0)
    } else {
        None
    };
    match compound {
        Some(pos) => {
            let (_, applied) = spec_apply_uo_compound(text, pos as int);
            if applied {
                lemma_prefixed_update(m, spec_apply_modifier(m, modifier, raw_key));
            }
        },
        None => (),
    }
}

/// Foreign-gate monotonicity: once a word is marked as possibly foreign,
/// it stays marked across every further key of the word, and tone or
/// modifier requests degrade to ordinary characters.
pub proof fn lemma_foreign_degrades(m: EngineModel, key: char)
    requires
        m.enabled,
        m.possible_foreign,
        !(m.smart_quotes && (key == '"' || key == '\'')),
    ensures
        ({
            let cap = m.auto_capitalize && m.next_char_upper && spec_is_alphabetic(key);
            let key2 = if cap {
                spec_upper_char(key)
            } else {
                key
            };
            let m0 = if cap {
                EngineModel { next_char_upper: false, ..m }
            } else {
                m
            };
            let prev = if m0.buffer.len() > 0 {
                Some(m0.buffer.last().ch)
            } else {
                None::<char>
            };
            !spec_is_word_boundary(key2) ==> spec_process_key(m, key).0.possible_foreign && ((
            m0.method.spec_classify(key2, prev) matches KeyAction::Tone(_)
                || m0.method.spec_classify(key2, prev) matches KeyAction::Modifier(_))
                ==> spec_process_key(m, key) == spec_regular_char(m0, key2))
        }),
{
    let cap = m.auto_capitalize && m.next_char_upper && spec_is_alphabetic(key);
    let key2 = if cap {
        spec_upper_char(key)
    } else {
        key
    };
    let m0 = if cap {
        EngineModel { next_char_upper: false, ..m }
    } else {
        m
    };
    if !spec_is_word_boundary(key2) {
        let text = spec_text(m0.buffer);
        let foreign = m0.spell_check && spec_foreign_word_pattern(
            spec_lower_seq(text),
            Some(key2),
        );
        let m1 = if foreign {
            EngineModel { possible_foreign: true, ..m0 }
        } else {
            m0
        };
        assert(m1 == m0);
    }
}


/// A character a transformation may install or record: one of the `d`
/// family, or a composed vowel of the character table.
pub open spec fn spec_table_char(c: char) -> bool {
    c == 'd' || c == 'D' || c == 'đ' || c == 'Đ' || crate::chars::spec_decomp(
        spec_lower_char(c),
    ) is Some
}

/// A buffer position is well formed: it shows its raw key unchanged, or a
/// letter of the `d` family (the stroke semantics), or a composed vowel of
/// the character table.
pub open spec fn spec_unit_ok(bc: BufferChar) -> bool {
    bc.ch == bc.raw || spec_table_char(bc.ch)
}

/// Every buffer position is well formed.
pub open spec fn spec_buffer_ok(buf: Seq<BufferChar>) -> bool {
    forall|i: int| 0 <= i < buf.len() ==> spec_unit_ok(#[trigger] buf[i])
}

/// The engine's character invariant: the buffer is well formed, and the
/// character the undo record holds (it is put back verbatim) is a table
/// vowel or a `d`.
pub open spec fn spec_chars_ok(m: EngineModel) -> bool {
    spec_buffer_ok(m.buffer) && (match m.last_transform.original {
        Some(c) => spec_table_char(c),
        None => true,
    })
}

/// Only `d` and `D` lowercase to `d`, and only the stroked pair to `đ`.
#[verifier::rlimit(100)]
proof fn lemma_lower_d(c: char)
    ensures
        spec_lower_char(c) == 'd' ==> c == 'd' || c == 'D',
        spec_lower_char(c) == 'đ' ==> c == 'đ' || c == 'Đ',
{
}

/// The stroke scan answers with an in-range `d`-family position.
proof fn lemma_last_d_facts(text: Seq<char>, i: int)
    requires
        text.len() <= usize::MAX,
    ensures
        match spec_last_d(text, i) {
            Some(p) => p < text.len() && (text[p as int] == 'd' || text[p as int] == 'D'
                || text[p as int] == 'đ' || text[p as int] == 'Đ'),
            None => true,
        },
    decreases i + 1,
{
    if !(i < 0 || i >= text.len()) {
        if spec_lower_char(text[i]) == 'd' || spec_lower_char(text[i]) == 'đ' {
            lemma_lower_d(text[i]);
        } else {
            lemma_last_d_facts(text, i - 1);
        }
    }
}

/// Pushing a plain character keeps the buffer well formed.
proof fn lemma_push_simple_ok(buf: Seq<BufferChar>, c: char)
    requires
        spec_buffer_ok(buf),
    ensures
        spec_buffer_ok(spec_push_simple(buf, c)),
{
}

/// Pushing a run of plain characters keeps the buffer well formed.
proof fn lemma_push_upto_ok(buf: Seq<BufferChar>, cs: Seq<char>, k: int)
    requires
        spec_buffer_ok(buf),
    ensures
        spec_buffer_ok(spec_push_upto(buf, cs, k)),
    decreases k,
{
    if k > 0 {
        lemma_push_upto_ok(buf, cs, k - 1);
        lemma_push_simple_ok(spec_push_upto(buf, cs, k - 1), cs[k - 1]);
    }
}

/// Replacing a position with a table character keeps the buffer well
/// formed.
proof fn lemma_replace_ok(buf: Seq<BufferChar>, i: usize, c: char)
    requires
        spec_buffer_ok(buf),
        spec_table_char(c),
    ensures
        spec_buffer_ok(spec_replace(buf, i, c)),
{
}

/// The strip pass keeps the buffer well formed.
proof fn lemma_strip_all_ok(buf: Seq<BufferChar>, k: int)
    requires
        spec_buffer_ok(buf),
    ensures
        spec_buffer_ok(spec_strip_all(buf, k).0),
    decreases k,
{
    if k > 0 {
        lemma_strip_all_ok(buf, k - 1);
        let (prev, _) = spec_strip_all(buf, k - 1);
        if k - 1 < prev.len() && spec_remove_diacritics(prev[k - 1].ch) != prev[k - 1].ch {
            crate::transform::lemma_strip_wf(prev[k - 1].ch);
            lemma_replace_ok(prev, (k - 1) as usize, spec_remove_diacritics(prev[k - 1].ch));
        }
    }
}

/// An ordinary character keeps the invariant.
proof fn lemma_regular_char_chars_ok(m: EngineModel, key: char)
    requires
        spec_chars_ok(m),
    ensures
        spec_chars_ok(spec_regular_char(m, key).0),
{
    lemma_push_simple_ok(m.buffer, key);
    let buf1 = spec_push_simple(m.buffer, key);
    let full = spec_with_prefix(m.shortcut_prefix, spec_text(buf1));
    match spec_try_match(m.table_enabled, m.table, full, None, false) {
        Some(mm) => {
            lemma_push_upto_ok(Seq::empty(), mm.replacement, mm.replacement.len() as int);
        },
        None => (),
    }
}

/// A tone request keeps the invariant.
proof fn lemma_apply_tone_chars_ok(m: EngineModel, tone: ToneMark, raw_key: char)
    requires
        spec_chars_ok(m),
        m.buffer.len() <= usize::MAX,
    ensures
        spec_chars_ok(spec_apply_tone(m, tone, raw_key).0),
{
    let text = spec_text(m.buffer);
    assert(text.len() == m.buffer.len());
    crate::transform::lemma_char_vowel_indices_in_range(text);
    let vi = crate::transform::spec_char_vowel_indices(text);
    if vi.len() > 0 && spec_should_undo_tone(text[vi.last() as int], tone) {
        let c = text[vi.last() as int];
        assert(crate::chars::spec_is_vowel_char(c));
        crate::transform::lemma_remove_tone_wf(c);
        lemma_replace_ok(m.buffer, vi.last(), spec_remove_tone(c).0);
        lemma_push_simple_ok(spec_replace(m.buffer, vi.last(), spec_remove_tone(c).0), raw_key);
    } else {
        match spec_engine_tone_position(text, m.modern_style) {
            Some(pos) => {
                match spec_tone_target_char(text, pos as int, tone) {
                    Some(nc) => {
                        let infos = spec_engine_vowel_infos(text);
                        crate::phonology::lemma_mark_position_among(
                            infos,
                            text.len() > vi.last() + 1,
                            text.len() >= 2 && spec_lower_char(text[0]) == 'q' && spec_lower_char(
                                text[1],
                            ) == 'u',
                            text.len() >= 2 && spec_lower_char(text[0]) == 'g' && spec_lower_char(
                                text[1],
                            ) == 'i',
                            m.modern_style,
                        );
                        let j = choose|j: int| 0 <= j < infos.len() && infos[j].pos == pos;
                        assert(vi[j] == pos);
                        assert(crate::chars::spec_is_vowel_char(text[pos as int]));
                        let old = text[pos as int];
                        crate::chars::lemma_with_tone_wf(old, tone);
                        let nc0 = spec_with_tone(old, tone)->Some_0;
                        if nc != nc0 {
                            crate::chars::lemma_with_modifier_wf(nc0, VowelMod::Circumflex);
                        }
                        lemma_replace_ok(m.buffer, pos, nc);
                    },
                    None => lemma_regular_char_chars_ok(m, raw_key),
                }
            },
            None => lemma_regular_char_chars_ok(m, raw_key),
        }
    }
}

/// A modifier request keeps the invariant.
proof fn lemma_apply_modifier_chars_ok(m: EngineModel, modifier: VowelMod, raw_key: char)
    requires
        spec_chars_ok(m),
        m.buffer.len() <= usize::MAX,
    ensures
        spec_chars_ok(spec_apply_modifier(m, modifier, raw_key).0),
        spec_chars_ok(spec_modifier_at_position(m, modifier, raw_key).0),
{
    let text = spec_text(m.buffer);
    assert(text.len() == m.buffer.len());
    // The non-compound path.
    crate::transform::lemma_find_modifier_position_vowel(text, modifier, text.len() - 1);
    match crate::transform::spec_find_modifier_position(text, modifier, text.len() - 1) {
        Some(pos) => {
            let old = text[pos as int];
            if spec_should_undo_modifier(old, modifier) {
                crate::transform::lemma_remove_modifier_wf(old);
                lemma_replace_ok(m.buffer, pos, spec_remove_modifier(old).0);
                lemma_push_simple_ok(
                    spec_replace(m.buffer, pos, spec_remove_modifier(old).0),
                    raw_key,
                );
            } else {
                match spec_with_modifier(old, modifier) {
                    Some(nc) => {
                        crate::chars::lemma_with_modifier_wf(old, modifier);
                        lemma_replace_ok(m.buffer, pos, nc);
                    },
                    None => lemma_regular_char_chars_ok(m, raw_key),
                }
            }
        },
        None => lemma_regular_char_chars_ok(m, raw_key),
    }
    // The horn compound.
    if modifier == VowelMod::Horn {
        match spec_uo_pos(text, 0) {
            Some(pos) => {
                let (text2, applied) = spec_apply_uo_compound(text, pos as int);
                if applied {
                    let ft = spec_get_tone(text[pos as int]);
                    let st = spec_get_tone(text[pos + 1]);
                    crate::chars::lemma_composed_wf('u', VowelMod::Horn, ft);
                    crate::chars::lemma_composed_wf('o', VowelMod::Horn, st);
                    lemma_replace_ok(m.buffer, pos, text2[pos as int]);
                    lemma_replace_ok(
                        spec_replace(m.buffer, pos, text2[pos as int]),
                        (pos + 1) as usize,
                        text2[pos + 1],
                    );
                }
            },
            None => (),
        }
    }
}

/// A stroke request keeps the invariant.
proof fn lemma_apply_stroke_chars_ok(m: EngineModel)
    requires
        spec_chars_ok(m),
        m.buffer.len() <= usize::MAX,
    ensures
        spec_chars_ok(spec_apply_stroke(m).0),
{
    let text = spec_text(m.buffer);
    assert(text.len() == m.buffer.len());
    lemma_last_d_facts(text, text.len() - 1);
    match spec_last_d(text, text.len() - 1) {
        Some(pos) => {
            let nc = spec_toggle_stroke(text[pos as int]);
            lemma_replace_ok(m.buffer, pos, nc);
        },
        None => (),
    }
}

/// A strip request keeps the invariant.
proof fn lemma_remove_all_chars_ok(m: EngineModel)
    requires
        spec_chars_ok(m),
    ensures
        spec_chars_ok(spec_remove_all(m).0),
{
    lemma_strip_all_ok(m.buffer, m.buffer.len() as int);
}

/// An undo keeps the invariant: the recorded character is a table vowel or
/// a `d`, so putting it back keeps the position well formed.
proof fn lemma_undo_chars_ok(m: EngineModel)
    requires
        spec_chars_ok(m),
    ensures
        spec_chars_ok(spec_undo_last(m).0),
{
    match (m.last_transform.position, m.last_transform.original) {
        (Some(pos), Some(orig)) => {
            if pos < m.buffer.len() {
                lemma_replace_ok(m.buffer, pos, orig);
            }
        },
        _ => (),
    }
}

/// A quick-Telex expansion keeps the invariant.
proof fn lemma_quick_telex_chars_ok(m: EngineModel, c1: char, c2: char)
    requires
        spec_chars_ok(m),
    ensures
        spec_chars_ok(spec_quick_telex(m, c1, c2).0),
{
    let buf0 = if m.buffer.len() > 0 {
        m.buffer.drop_last()
    } else {
        m.buffer
    };
    assert(spec_buffer_ok(buf0));
    let was_upper = m.buffer.len() > 0 && m.buffer.last().ch != spec_lower_char(m.buffer.last().ch);
    let first = if was_upper {
        spec_upper_char(c1)
    } else {
        c1
    };
    lemma_push_simple_ok(buf0, first);
    lemma_push_simple_ok(spec_push_simple(buf0, first), c2);
}

/// Unit well-formedness (the per-position invariant): after any key, every
/// buffer position still shows either its raw key unchanged, a letter of
/// the `d` family, or a composed vowel of the character table — and the
/// undo record still holds such a character.
pub proof fn lemma_process_key_chars_ok(m: EngineModel, key: char)
    requires
        spec_chars_ok(m),
        m.buffer.len() <= usize::MAX,
    ensures
        spec_chars_ok(spec_process_key(m, key).0),
{
    if m.enabled {
        if m.smart_quotes && (key == '"' || key == '\'') {
            lemma_regular_char_chars_ok(m, spec_smart_quote(m, key));
        } else {
            let cap = m.auto_capitalize && m.next_char_upper && spec_is_alphabetic(key);
            let key2 = if cap {
                spec_upper_char(key)
            } else {
                key
            };
            let m0 = if cap {
                EngineModel { next_char_upper: false, ..m }
            } else {
                m
            };
            assert(spec_chars_ok(m0));
            if spec_is_word_boundary(key2) {
                if !(m0.buffer.len() == 0 && spec_is_valid_prefix(key2)) {
                    assert(spec_chars_ok(spec_word_boundary(m0, key2).0));
                }
            } else {
                let text = spec_text(m0.buffer);
                let foreign = m0.spell_check && spec_foreign_word_pattern(
                    spec_lower_seq(text),
                    Some(key2),
                );
                let m1 = if foreign {
                    EngineModel { possible_foreign: true, ..m0 }
                } else {
                    m0
                };
                assert(spec_chars_ok(m1));
                let prev = if m1.buffer.len() > 0 {
                    Some(m1.buffer.last().ch)
                } else {
                    None::<char>
                };
                match m1.method.spec_classify(key2, prev) {
                    KeyAction::Ordinary => lemma_regular_char_chars_ok(m1, key2),
                    KeyAction::Tone(t) => {
                        lemma_regular_char_chars_ok(m1, key2);
                        lemma_apply_tone_chars_ok(m1, t, key2);
                    },
                    KeyAction::Modifier(md) => {
                        lemma_regular_char_chars_ok(m1, key2);
                        lemma_apply_modifier_chars_ok(m1, md, key2);
                    },
                    KeyAction::Stroke => lemma_apply_stroke_chars_ok(m1),
                    KeyAction::RemoveDiacritics => lemma_remove_all_chars_ok(m1),
                    KeyAction::Undo => lemma_undo_chars_ok(m1),
                    KeyAction::QuickTelex(c1, c2) => lemma_quick_telex_chars_ok(m1, c1, c2),
                    KeyAction::InsertChar(c) => lemma_push_simple_ok(m1.buffer, c),
                }
            }
        }
    }
}

} // verus!
