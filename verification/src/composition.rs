//! The keycode composition buffer.
//!
//! Each position holds an [`InputUnit`]: the pressed key plus its case,
//! shape modifier, tone mark and stroke flag.  The buffer also records the
//! raw characters as typed, so the original input can be restored.

use vstd::prelude::*;
use crate::MAX_BUFFER_SIZE;
use crate::keycodes::spec_is_vowel;
use crate::keys;
use crate::strings::string_of_chars;
use crate::tone;
use crate::mark;
use crate::unicode::{spec_compose_char, spec_stroke_d, compose_char, get_stroke_d};

verus! {

/// A single position of the composition buffer.
#[derive(Clone, Copy, Debug, PartialEq, Eq, Structural)]
pub struct InputUnit {
    /// The base keycode.
    pub key: u16,
    /// Whether the character is uppercase.
    pub is_uppercase: bool,
    /// Shape modifier: none, circumflex, or horn (breve on `a`).
    pub tone_mod: u8,
    /// Tone mark: none, acute, grave, hook, tilde, or dot.
    pub mark_type: u8,
    /// Whether a `d` has been stroked into `đ`.
    pub is_stroked: bool,
}

/// The character a unit renders as, if its keycode is renderable.
pub open spec fn spec_unit_char(u: InputUnit) -> Option<char> {
    if u.key == keys::D && u.is_stroked {
        Some(spec_stroke_d(u.is_uppercase))
    } else {
        spec_compose_char(u.key, u.is_uppercase, u.tone_mod, u.mark_type)
    }
}

impl InputUnit {
    /// A fresh unit with no modifiers.
    pub fn new(key: u16, is_uppercase: bool) -> (r: Self)
        ensures
            r == (InputUnit {
                key,
                is_uppercase,
                tone_mod: tone::NONE,
                mark_type: mark::NONE,
                is_stroked: false,
            }),
    {
        InputUnit { key, is_uppercase, tone_mod: tone::NONE, mark_type: mark::NONE, is_stroked: false }
    }

    /// Whether the unit's key is a vowel letter.
    pub fn is_vowel(&self) -> (r: bool)
        ensures
            r == spec_is_vowel(self.key),
    {
        crate::keycodes::is_vowel(self.key)
    }

    /// Whether the unit carries a shape modifier or a tone mark.
    pub fn has_modifier(&self) -> (r: bool)
        ensures
            r == (self.tone_mod != tone::NONE || self.mark_type != mark::NONE),
    {
        self.tone_mod != tone::NONE || self.mark_type != mark::NONE
    }

    /// Render the unit as a character.
    pub fn to_char(&self) -> (r: Option<char>)
        ensures
            r == spec_unit_char(*self),
    {
        if self.key == keys::D && self.is_stroked {
            Some(get_stroke_d(self.is_uppercase))
        } else {
            compose_char(self.key, self.is_uppercase, self.tone_mod, self.mark_type)
        }
    }
}

/// The rendered text of a unit sequence: each unit's character, skipping
/// units whose keycode does not render.
pub open spec fn spec_render(s: Seq<InputUnit>) -> Seq<char>
    decreases s.len(),
{
    if s.len() == 0 {
        Seq::empty()
    } else {
        spec_render(s.drop_last()) + match spec_unit_char(s.last()) {
            Some(c) => seq![c],
            None => Seq::empty(),
        }
    }
}

/// The positions of the vowel units, in increasing order.
pub open spec fn spec_vowel_positions(s: Seq<InputUnit>) -> Seq<usize>
    decreases s.len(),
{
    if s.len() == 0 {
        Seq::empty()
    } else {
        spec_vowel_positions(s.drop_last()) + if spec_is_vowel(s.last().key) {
            seq![(s.len() - 1) as usize]
        } else {
            Seq::empty()
        }
    }
}

/// A bounded buffer of input units paired with the raw characters typed.
#[derive(Clone, Debug)]
pub struct CompositionBuffer {
    pub units: Vec<InputUnit>,
    pub raw_input: Vec<char>,
}

impl CompositionBuffer {
    /// Both channels have the same length, within the capacity bound.
    pub open spec fn wf(&self) -> bool {
        self.units@.len() == self.raw_input@.len() && self.units@.len() <= MAX_BUFFER_SIZE
    }

    /// A fresh empty buffer.
    pub fn new() -> (r: Self)
        ensures
            r.wf(),
            r.units@.len() == 0,
            r.raw_input@.len() == 0,
    {
        CompositionBuffer { units: Vec::new(), raw_input: Vec::new() }
    }

    /// Whether the buffer holds no units.
    pub fn is_empty(&self) -> (r: bool)
        ensures
            r == (self.units@.len() == 0),
    {
        self.units.len() == 0
    }

    /// The number of units held.
    pub fn len(&self) -> (r: usize)
        ensures
            r == self.units@.len(),
    {
        self.units.len()
    }

    /// Append a unit and its raw character; full buffers drop the push.
    pub fn push(&mut self, unit: InputUnit, raw_char: char)
        requires
            old(self).wf(),
        ensures
            final(self).wf(),
            old(self).units@.len() < MAX_BUFFER_SIZE ==> final(self).units@ == old(self).units@.push(unit)
                && final(self).raw_input@ == old(self).raw_input@.push(raw_char),
            old(self).units@.len() >= MAX_BUFFER_SIZE ==> *final(self) == *old(self),
    {
        if self.units.len() < MAX_BUFFER_SIZE {
            self.units.push(unit);
            self.raw_input.push(raw_char);
        }
    }

    /// Remove and return the last unit.
    pub fn pop(&mut self) -> (r: Option<InputUnit>)
        requires
            old(self).wf(),
        ensures
            final(self).wf(),
            old(self).units@.len() == 0 ==> r is None && *final(self) == *old(self),
            old(self).units@.len() > 0 ==> r == Some(old(self).units@.last())
                && final(self).units@ == old(self).units@.drop_last()
                && final(self).raw_input@ == old(self).raw_input@.drop_last(),
    {
        if self.units.len() == 0 {
            None
        } else {
            self.raw_input.pop();
            self.units.pop()
        }
    }

    /// The unit at a position.
    pub fn get(&self, index: usize) -> (r: Option<&InputUnit>)
        ensures
            index < self.units@.len() ==> r is Some && *r->Some_0 == self.units@[index as int],
            index >= self.units@.len() ==> r is None,
    {
        if index < self.units.len() {
            Some(&self.units[index])
        } else {
            None
        }
    }

    /// The last unit.
    pub fn last(&self) -> (r: Option<&InputUnit>)
        ensures
            self.units@.len() > 0 ==> r is Some && *r->Some_0 == self.units@.last(),
            self.units@.len() == 0 ==> r is None,
    {
        if self.units.len() > 0 {
            Some(&self.units[self.units.len() - 1])
        } else {
            None
        }
    }

    /// Overwrite the unit at a position; out-of-range indices do nothing.
    pub fn set_unit(&mut self, index: usize, unit: InputUnit)
        requires
            old(self).wf(),
        ensures
            final(self).wf(),
            index < old(self).units@.len() ==> final(self).units@ == old(self).units@.update(
                index as int,
                unit,
            ) && final(self).raw_input@ == old(self).raw_input@,
            index >= old(self).units@.len() ==> *final(self) == *old(self),
    {
        if index < self.units.len() {
            self.units.set(index, unit);
        }
    }

    /// Empty both channels.
    pub fn clear(&mut self)
        ensures
            final(self).wf(),
            final(self).units@.len() == 0,
            final(self).raw_input@.len() == 0,
    {
        self.units.clear();
        self.raw_input.clear();
    }

    /// The keycodes of all units, in order.
    pub fn keys(&self) -> (r: Vec<u16>)
        ensures
            r@ == Seq::new(self.units@.len(), |i: int| self.units@[i].key),
    {
        let mut r: Vec<u16> = Vec::new();
        let mut i: usize = 0;
        while i < self.units.len()
            invariant
                i <= self.units@.len(),
                r@ == Seq::new(i as nat, |j: int| self.units@[j].key),
            decreases self.units@.len() - i,
        {
            r.push(self.units[i].key);
            i += 1;
            proof {
                assert(r@ =~= Seq::new(i as nat, |j: int| self.units@[j].key));
            }
        }
        proof {
            assert(r@ =~= Seq::new(self.units@.len(), |i: int| self.units@[i].key));
        }
        r
    }

    /// The shape modifiers of all units, in order.
    pub fn tones(&self) -> (r: Vec<u8>)
        ensures
            r@ == Seq::new(self.units@.len(), |i: int| self.units@[i].tone_mod),
    {
        let mut r: Vec<u8> = Vec::new();
        let mut i: usize = 0;
        while i < self.units.len()
            invariant
                i <= self.units@.len(),
                r@ == Seq::new(i as nat, |j: int| self.units@[j].tone_mod),
            decreases self.units@.len() - i,
        {
            r.push(self.units[i].tone_mod);
            i += 1;
            proof {
                assert(r@ =~= Seq::new(i as nat, |j: int| self.units@[j].tone_mod));
            }
        }
        proof {
            assert(r@ =~= Seq::new(self.units@.len(), |i: int| self.units@[i].tone_mod));
        }
        r
    }

    /// The positions of all vowel units, in increasing order.
    pub fn find_vowels(&self) -> (r: Vec<usize>)
        ensures
            r@ == spec_vowel_positions(self.units@),
    {
        let mut r: Vec<usize> = Vec::new();
        let mut i: usize = 0;
        while i < self.units.len()
            invariant
                i <= self.units@.len(),
                r@ == spec_vowel_positions(self.units@.take(i as int)),
            decreases self.units@.len() - i,
        {
            proof {
                assert(self.units@.take(i + 1).drop_last() =~= self.units@.take(i as int));
                assert(self.units@.take(i + 1).last() == self.units@[i as int]);
            }
            if crate::keycodes::is_vowel(self.units[i].key) {
                r.push(i);
            }
            i += 1;
        }
        proof {
            assert(self.units@.take(self.units@.len() as int) =~= self.units@);
        }
        r
    }

    /// The rendered text of the buffer, as characters.
    pub fn rendered_chars(&self) -> (r: Vec<char>)
        ensures
            r@ == spec_render(self.units@),
    {
        let mut chars: Vec<char> = Vec::new();
        let mut i: usize = 0;
        while i < self.units.len()
            invariant
                i <= self.units@.len(),
                chars@ == spec_render(self.units@.take(i as int)),
            decreases self.units@.len() - i,
        {
            proof {
                assert(self.units@.take(i + 1).drop_last() =~= self.units@.take(i as int));
                assert(self.units@.take(i + 1).last() == self.units@[i as int]);
            }
            match self.units[i].to_char() {
                Some(c) => chars.push(c),
                None => (),
            }
            i += 1;
        }
        proof {
            assert(self.units@.take(self.units@.len() as int) =~= self.units@);
        }
        chars
    }

    /// Render the buffer as its composed Vietnamese text.
    pub fn to_string(&self) -> (r: String)
        ensures
            r@ == spec_render(self.units@),
    {
        let chars = self.rendered_chars();
        string_of_chars(&chars)
    }

    /// The raw characters as typed.
    pub fn raw_string(&self) -> (r: String)
        ensures
            r@ == self.raw_input@,
    {
        string_of_chars(&self.raw_input)
    }
}

impl Default for CompositionBuffer {
    fn default() -> (r: Self)
        ensures
            r.wf(),
            r.units@.len() == 0,
            r.raw_input@.len() == 0,
    {
        CompositionBuffer::new()
    }
}

} // verus!
