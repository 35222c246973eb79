//! The keycode processing pipeline.
//!
//! A [`Processor`] receives virtual keycodes, maintains a composition
//! buffer, and answers each key with an action, the text to type and the
//! number of backspaces to send first.  Ordinary updates are reported as a
//! minimal edit script against the previous rendering.

use vstd::prelude::*;
use crate::composition::{CompositionBuffer, InputUnit, spec_render};
use crate::differ::{spec_edit, compute_edit};
use crate::keys;
use crate::mark;
use crate::marks::{
    spec_apply_mark, spec_apply_stroke, spec_apply_tone_modifier, apply_mark, apply_stroke,
    apply_tone_modifier,
};
use crate::strings::string_of_chars;
use crate::tone;
use crate::unicode::spec_compose_char;
use crate::MAX_BUFFER_SIZE;

verus! {

/// The two supported typing conventions.
#[derive(Clone, Copy, Debug, PartialEq, Eq, Structural)]
pub enum InputMethod {
    Telex,
    Vni,
}

/// What the host should do with a processed key.
#[derive(Debug, Clone, Copy, PartialEq, Eq, Structural)]
pub enum ProcessAction {
    /// Let the key through unchanged.
    Passthrough,
    /// Erase `backspace` code points, then type `output`.
    Commit,
    /// Drop the composition.
    Clear,
}

/// The answer to one key event.
#[derive(Debug)]
pub struct ProcessResult {
    pub action: ProcessAction,
    pub output: String,
    pub backspace: usize,
}

impl ProcessResult {
    /// Let the key through; nothing to type, nothing to erase.
    pub fn passthrough() -> (r: Self)
        ensures
            r.action == ProcessAction::Passthrough,
            r.output@.len() == 0,
            r.backspace == 0,
    {
        ProcessResult { action: ProcessAction::Passthrough, output: String::new(), backspace: 0 }
    }

    /// Type `output` after erasing `backspace` code points.
    pub fn commit(output: String, backspace: usize) -> (r: Self)
        ensures
            r.action == ProcessAction::Commit,
            r.output == output,
            r.backspace == backspace,
    {
        ProcessResult { action: ProcessAction::Commit, output, backspace }
    }
}

/// The ghost form of a processing answer.
pub struct ProcOut {
    pub action: ProcessAction,
    pub output: Seq<char>,
    pub backspace: int,
}

/// A key appended to the buffer as an ordinary character.
pub open spec fn spec_push_unit(
    units: Seq<InputUnit>,
    raws: Seq<char>,
    key: u16,
    upper: bool,
    raw_char: char,
) -> (Seq<InputUnit>, Seq<char>) {
    if units.len() < MAX_BUFFER_SIZE {
        (
            units.push(
                InputUnit { key, is_uppercase: upper, tone_mod: 0, mark_type: 0, is_stroked: false },
            ),
            raws.push(raw_char),
        )
    } else {
        (units, raws)
    }
}

/// The minimal edit script from the old rendering to the buffer's new one.
pub open spec fn spec_build(old_out: Seq<char>, units2: Seq<InputUnit>) -> ProcOut {
    let e = spec_edit(old_out, spec_render(units2));
    ProcOut { action: ProcessAction::Commit, output: e.1, backspace: e.0 }
}

/// The raw character a key event prints as; unknown keys show as `?`.
pub open spec fn spec_raw_char(key: u16, upper: bool) -> char {
    match crate::keycodes::spec_to_char(key, upper) {
        Some(c) => c,
        None => '?',
    }
}

/// One Telex key applied to the buffer.
pub open spec fn spec_telex_step(
    units: Seq<InputUnit>,
    raws: Seq<char>,
    key: u16,
    upper: bool,
    modern: bool,
) -> (Seq<InputUnit>, Seq<char>, ProcOut) {
    let raw_char = spec_raw_char(key, upper);
    let old_out = spec_render(units);
    let mark_value: u8 = if key == keys::S {
        mark::ACUTE
    } else if key == keys::F {
        mark::GRAVE
    } else if key == keys::R {
        mark::HOOK
    } else if key == keys::X {
        mark::TILDE
    } else if key == keys::J {
        mark::DOT
    } else {
        mark::NONE
    };
    if mark_value != mark::NONE {
        let m = spec_apply_mark(units, mark_value, modern);
        if m.2 {
            (m.0, raws, spec_build(old_out, m.0))
        } else {
            let p = spec_push_unit(m.0, raws, key, upper, raw_char);
            (p.0, p.1, spec_build(old_out, p.0))
        }
    } else if key == keys::D && units.len() > 0 && units.last().key == keys::D
        && !units.last().is_stroked {
        let st = spec_apply_stroke(units);
        if st.1 {
            (st.0, raws, spec_build(old_out, st.0))
        } else {
            let p = spec_push_unit(st.0, raws, key, upper, raw_char);
            (p.0, p.1, spec_build(old_out, p.0))
        }
    } else if key == keys::W {
        let t = spec_apply_tone_modifier(units, tone::HORN, keys::W);
        if t.2 {
            (t.0, raws, spec_build(old_out, t.0))
        } else {
            let p = spec_push_unit(t.0, raws, key, upper, raw_char);
            (p.0, p.1, spec_build(old_out, p.0))
        }
    } else if (key == keys::A || key == keys::E || key == keys::O) && units.len() > 0
        && units.last().key == key && units.last().tone_mod == tone::NONE {
        let t = spec_apply_tone_modifier(units, tone::CIRCUMFLEX, key);
        if t.2 {
            (t.0, raws, spec_build(old_out, t.0))
        } else {
            let p = spec_push_unit(t.0, raws, key, upper, raw_char);
            (p.0, p.1, spec_build(old_out, p.0))
        }
    } else {
        let p = spec_push_unit(units, raws, key, upper, raw_char);
        (p.0, p.1, spec_build(old_out, p.0))
    }
}

/// One VNI key applied to the buffer.
pub open spec fn spec_vni_step(
    units: Seq<InputUnit>,
    raws: Seq<char>,
    key: u16,
    upper: bool,
    modern: bool,
) -> (Seq<InputUnit>, Seq<char>, ProcOut) {
    let raw_char = spec_raw_char(key, upper);
    let old_out = spec_render(units);
    let mark_value: u8 = if key == keys::N1 {
        mark::ACUTE
    } else if key == keys::N2 {
        mark::GRAVE
    } else if key == keys::N3 {
        mark::HOOK
    } else if key == keys::N4 {
        mark::TILDE
    } else if key == keys::N5 {
        mark::DOT
    } else {
        mark::NONE
    };
    if mark_value != mark::NONE {
        let m = spec_apply_mark(units, mark_value, modern);
        if m.2 {
            (m.0, raws, spec_build(old_out, m.0))
        } else {
            let p = spec_push_unit(m.0, raws, key, upper, raw_char);
            (p.0, p.1, spec_build(old_out, p.0))
        }
    } else if key == keys::N6 || key == keys::N7 || key == keys::N8 {
        let tv: u8 = if key == keys::N6 {
            tone::CIRCUMFLEX
        } else {
            tone::HORN
        };
        let t = spec_apply_tone_modifier(units, tv, key);
        if t.2 {
            (t.0, raws, spec_build(old_out, t.0))
        } else {
            let p = spec_push_unit(t.0, raws, key, upper, raw_char);
            (p.0, p.1, spec_build(old_out, p.0))
        }
    } else if key == keys::N9 {
        let st = spec_apply_stroke(units);
        if st.1 {
            (st.0, raws, spec_build(old_out, st.0))
        } else {
            let p = spec_push_unit(st.0, raws, key, upper, raw_char);
            (p.0, p.1, spec_build(old_out, p.0))
        }
    } else {
        let p = spec_push_unit(units, raws, key, upper, raw_char);
        (p.0, p.1, spec_build(old_out, p.0))
    }
}

/// One key event applied to the processor: special keys first (space
/// commits, backspace pops, escape restores the raw input), then the
/// selected method's rules.
pub open spec fn spec_processor_key(
    units: Seq<InputUnit>,
    raws: Seq<char>,
    method: InputMethod,
    enabled: bool,
    modern: bool,
    key: u16,
    upper: bool,
    ctrl: bool,
) -> (Seq<InputUnit>, Seq<char>, ProcOut) {
    if !enabled || ctrl {
        (
            Seq::empty(),
            Seq::empty(),
            ProcOut { action: ProcessAction::Passthrough, output: Seq::empty(), backspace: 0 },
        )
    } else if key == keys::SPACE {
        let out = if units.len() == 0 {
            ProcOut { action: ProcessAction::Passthrough, output: Seq::empty(), backspace: 0 }
        } else {
            ProcOut { action: ProcessAction::Commit, output: spec_render(units), backspace: 0 }
        };
        (Seq::empty(), Seq::empty(), out)
    } else if key == keys::BACKSPACE {
        if units.len() == 0 {
            (
                units,
                raws,
                ProcOut { action: ProcessAction::Passthrough, output: Seq::empty(), backspace: 0 },
            )
        } else {
            (
                units.drop_last(),
                raws.drop_last(),
                ProcOut {
                    action: ProcessAction::Commit,
                    output: spec_render(units.drop_last()),
                    backspace: 1,
                },
            )
        }
    } else if key == keys::ESC {
        (
            Seq::empty(),
            Seq::empty(),
            ProcOut { action: ProcessAction::Commit, output: raws, backspace: 0 },
        )
    } else if method == InputMethod::Telex {
        spec_telex_step(units, raws, key, upper, modern)
    } else {
        spec_vni_step(units, raws, key, upper, modern)
    }
}

/// The keycode IME processor.
pub struct Processor {
    pub buffer: CompositionBuffer,
    pub method: InputMethod,
    pub enabled: bool,
    pub use_modern_style: bool,
}

impl Processor {
    /// The processor's buffer is well formed.
    pub open spec fn wf(&self) -> bool {
        self.buffer.wf()
    }

    /// A fresh processor: Telex, enabled, modern tone placement, empty
    /// buffer.
    pub fn new() -> (r: Self)
        ensures
            r.wf(),
            r.buffer.units@.len() == 0,
            r.buffer.raw_input@.len() == 0,
            r.method == InputMethod::Telex,
            r.enabled,
            r.use_modern_style,
    {
        Processor {
            buffer: CompositionBuffer::new(),
            method: InputMethod::Telex,
            enabled: true,
            use_modern_style: true,
        }
    }

    /// Select the typing convention.
    pub fn set_method(&mut self, method: InputMethod)
        requires
            old(self).wf(),
        ensures
            final(self).wf(),
            final(self).method == method,
            final(self).buffer == old(self).buffer,
            final(self).enabled == old(self).enabled,
            final(self).use_modern_style == old(self).use_modern_style,
    {
        self.method = method;
    }

    /// Enable or disable processing; disabling drops the composition.
    pub fn set_enabled(&mut self, enabled: bool)
        requires
            old(self).wf(),
        ensures
            final(self).wf(),
            final(self).enabled == enabled,
            final(self).method == old(self).method,
            final(self).use_modern_style == old(self).use_modern_style,
            enabled ==> final(self).buffer == old(self).buffer,
            !enabled ==> final(self).buffer.units@.len() == 0
                && final(self).buffer.raw_input@.len() == 0,
    {
        self.enabled = enabled;
        if !enabled {
            self.buffer.clear();
        }
    }

    /// Choose between modern and traditional tone placement.
    pub fn set_modern_style(&mut self, modern: bool)
        requires
            old(self).wf(),
        ensures
            final(self).wf(),
            final(self).use_modern_style == modern,
            final(self).buffer == old(self).buffer,
            final(self).method == old(self).method,
            final(self).enabled == old(self).enabled,
    {
        self.use_modern_style = modern;
    }

    /// Drop the composition.
    pub fn clear(&mut self)
        requires
            old(self).wf(),
        ensures
            final(self).wf(),
            final(self).buffer.units@.len() == 0,
            final(self).buffer.raw_input@.len() == 0,
            final(self).method == old(self).method,
            final(self).enabled == old(self).enabled,
            final(self).use_modern_style == old(self).use_modern_style,
    {
        self.buffer.clear();
    }

    /// The composed text currently in the buffer.
    pub fn get_buffer(&self) -> (r: String)
        ensures
            r@ == spec_render(self.buffer.units@),
    {
        self.buffer.to_string()
    }

    /// Process one key event.
    ///
    /// Control chords and a disabled processor pass the key through and drop
    /// the composition.  Space commits the buffer, backspace pops one unit,
    /// escape restores the raw input.  Any other key goes through the
    /// selected method's rules, and the change of the rendering is reported
    /// as a minimal edit script.
    pub fn process_key(&mut self, key: u16, uppercase: bool, ctrl: bool) -> (r: ProcessResult)
        requires
            old(self).wf(),
        ensures
            final(self).wf(),
            final(self).method == old(self).method,
            final(self).enabled == old(self).enabled,
            final(self).use_modern_style == old(self).use_modern_style,
            ({
                let (units2, raws2, out) = spec_processor_key(
                    old(self).buffer.units@,
                    old(self).buffer.raw_input@,
                    old(self).method,
                    old(self).enabled,
                    old(self).use_modern_style,
                    key,
                    uppercase,
                    ctrl,
                );
                final(self).buffer.units@ == units2 && final(self).buffer.raw_input@ == raws2
                    && r.action == out.action && r.output@ == out.output && r.backspace as int
                    == out.backspace
            }),
    {
        if !self.enabled || ctrl {
            self.buffer.clear();
            return ProcessResult::passthrough();
        }
        if key == keys::SPACE {
            let result = self.commit_buffer();
            self.buffer.clear();
            return result;
        }
        if key == keys::BACKSPACE {
            if self.buffer.is_empty() {
                return ProcessResult::passthrough();
            }
            self.buffer.pop();
            return ProcessResult::commit(self.buffer.to_string(), 1);
        }
        if key == keys::ESC {
            let raw = self.buffer.raw_string();
            self.buffer.clear();
            return ProcessResult::commit(raw, 0);
        }
        if self.method == InputMethod::Telex {
            self.process_telex(key, uppercase)
        } else {
            self.process_vni(key, uppercase)
        }
    }

    /// Process a key under the Telex rules: `s f r x j` place tones, a
    /// doubled `d` strokes, `w` asks for the horn, a doubled `a`/`e`/`o`
    /// asks for the circumflex; everything else is an ordinary character.
    fn process_telex(&mut self, key: u16, uppercase: bool) -> (r: ProcessResult)
        requires
            old(self).wf(),
        ensures
            final(self).wf(),
            final(self).method == old(self).method,
            final(self).enabled == old(self).enabled,
            final(self).use_modern_style == old(self).use_modern_style,
            ({
                let (units2, raws2, out) = spec_telex_step(
                    old(self).buffer.units@,
                    old(self).buffer.raw_input@,
                    key,
                    uppercase,
                    old(self).use_modern_style,
                );
                final(self).buffer.units@ == units2 && final(self).buffer.raw_input@ == raws2
                    && r.action == out.action && r.output@ == out.output && r.backspace as int
                    == out.backspace
            }),
    {
        let raw_char = match crate::keycodes::to_char(key, uppercase) {
            Some(c) => c,
            None => '?',
        };
        let old_chars = self.buffer.rendered_chars();
        let mark_value: u8 = if key == keys::S {
            mark::ACUTE
        } else if key == keys::F {
            mark::GRAVE
        } else if key == keys::R {
            mark::HOOK
        } else if key == keys::X {
            mark::TILDE
        } else if key == keys::J {
            mark::DOT
        } else {
            mark::NONE
        };
        if mark_value != mark::NONE {
            let res = apply_mark(&mut self.buffer, mark_value, self.use_modern_style);
            if res.applied {
                return build_result(&self.buffer, &old_chars);
            }
            self.buffer.push(InputUnit::new(key, uppercase), raw_char);
            return build_result(&self.buffer, &old_chars);
        }
        if key == keys::D {
            let mut doubled = false;
            match self.buffer.last() {
                Some(unit) => {
                    if unit.key == keys::D && !unit.is_stroked {
                        doubled = true;
                    }
                },
                None => (),
            }
            if doubled {
                let res = apply_stroke(&mut self.buffer);
                if res.applied {
                    return build_result(&self.buffer, &old_chars);
                }
                self.buffer.push(InputUnit::new(key, uppercase), raw_char);
                return build_result(&self.buffer, &old_chars);
            }
            self.buffer.push(InputUnit::new(key, uppercase), raw_char);
            return build_result(&self.buffer, &old_chars);
        }
        if key == keys::W {
            let res = apply_tone_modifier(&mut self.buffer, tone::HORN, keys::W);
            if res.applied {
                return build_result(&self.buffer, &old_chars);
            }
            self.buffer.push(InputUnit::new(key, uppercase), raw_char);
            return build_result(&self.buffer, &old_chars);
        }
        if key == keys::A || key == keys::E || key == keys::O {
            let mut doubled = false;
            match self.buffer.last() {
                Some(unit) => {
                    if unit.key == key && unit.tone_mod == tone::NONE {
                        doubled = true;
                    }
                },
                None => (),
            }
            if doubled {
                let res = apply_tone_modifier(&mut self.buffer, tone::CIRCUMFLEX, key);
                if res.applied {
                    return build_result(&self.buffer, &old_chars);
                }
                self.buffer.push(InputUnit::new(key, uppercase), raw_char);
                return build_result(&self.buffer, &old_chars);
            }
            self.buffer.push(InputUnit::new(key, uppercase), raw_char);
            return build_result(&self.buffer, &old_chars);
        }
        self.buffer.push(InputUnit::new(key, uppercase), raw_char);
        build_result(&self.buffer, &old_chars)
    }

    /// Process a key under the VNI rules: digits `1`-`5` place tones, `6`
    /// asks for the circumflex, `7` and `8` for the horn and breve, `9`
    /// strokes a `d`; everything else is an ordinary character.
    fn process_vni(&mut self, key: u16, uppercase: bool) -> (r: ProcessResult)
        requires
            old(self).wf(),
        ensures
            final(self).wf(),
            final(self).method == old(self).method,
            final(self).enabled == old(self).enabled,
            final(self).use_modern_style == old(self).use_modern_style,
            ({
                let (units2, raws2, out) = spec_vni_step(
                    old(self).buffer.units@,
                    old(self).buffer.raw_input@,
                    key,
                    uppercase,
                    old(self).use_modern_style,
                );
                final(self).buffer.units@ == units2 && final(self).buffer.raw_input@ == raws2
                    && r.action == out.action && r.output@ == out.output && r.backspace as int
                    == out.backspace
            }),
    {
        let raw_char = match crate::keycodes::to_char(key, uppercase) {
            Some(c) => c,
            None => '?',
        };
        let old_chars = self.buffer.rendered_chars();
        let mark_value: u8 = if key == keys::N1 {
            mark::ACUTE
        } else if key == keys::N2 {
            mark::GRAVE
        } else if key == keys::N3 {
            mark::HOOK
        } else if key == keys::N4 {
            mark::TILDE
        } else if key == keys::N5 {
            mark::DOT
        } else {
            mark::NONE
        };
        if mark_value != mark::NONE {
            let res = apply_mark(&mut self.buffer, mark_value, self.use_modern_style);
            if res.applied {
                return build_result(&self.buffer, &old_chars);
            }
            self.buffer.push(InputUnit::new(key, uppercase), raw_char);
            return build_result(&self.buffer, &old_chars);
        }
        if key == keys::N6 || key == keys::N7 || key == keys::N8 {
            let tv: u8 = if key == keys::N6 {
                tone::CIRCUMFLEX
            } else {
                tone::HORN
            };
            let res = apply_tone_modifier(&mut self.buffer, tv, key);
            if res.applied {
                return build_result(&self.buffer, &old_chars);
            }
            self.buffer.push(InputUnit::new(key, uppercase), raw_char);
            return build_result(&self.buffer, &old_chars);
        }
        if key == keys::N9 {
            let res = apply_stroke(&mut self.buffer);
            if res.applied {
                return build_result(&self.buffer, &old_chars);
            }
            self.buffer.push(InputUnit::new(key, uppercase), raw_char);
            return build_result(&self.buffer, &old_chars);
        }
        self.buffer.push(InputUnit::new(key, uppercase), raw_char);
        build_result(&self.buffer, &old_chars)
    }

    /// Commit what the buffer holds, leaving the erase count to the caller.
    fn commit_buffer(&self) -> (r: ProcessResult)
        ensures
            self.buffer.units@.len() == 0 ==> r.action == ProcessAction::Passthrough && r.output@
                == Seq::<char>::empty() && r.backspace == 0,
            self.buffer.units@.len() > 0 ==> r.action == ProcessAction::Commit && r.output@
                == spec_render(self.buffer.units@) && r.backspace == 0,
    {
        if self.buffer.is_empty() {
            ProcessResult::passthrough()
        } else {
            ProcessResult::commit(self.buffer.to_string(), 0)
        }
    }
}

impl Default for Processor {
    fn default() -> (r: Self)
        ensures
            r.wf(),
            r.buffer.units@.len() == 0,
            r.method == InputMethod::Telex,
            r.enabled,
            r.use_modern_style,
    {
        Processor::new()
    }
}

/// Report the change of the buffer's rendering as a minimal edit script.
fn build_result(buffer: &CompositionBuffer, old_chars: &Vec<char>) -> (r: ProcessResult)
    ensures
        ({
            let out = spec_build(old_chars@, buffer.units@);
            r.action == out.action && r.output@ == out.output && r.backspace as int
                == out.backspace
        }),
{
    let new_chars = buffer.rendered_chars();
    let (backspace, insert) = compute_edit(old_chars, &new_chars);
    ProcessResult::commit(string_of_chars(&insert), backspace)
}

} // verus!
