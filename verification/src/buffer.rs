//! The character composition buffer.
//!
//! Each position holds the composed character currently shown and the raw
//! key that produced it, so the original keystrokes can be restored at a
//! word boundary.

use vstd::prelude::*;
use crate::MAX_BUFFER_SIZE;
use crate::chars::spec_is_vowel_char;
use crate::strings::string_of_chars;

verus! {

/// A single buffer position: the shown character, the raw key, and whether
/// they differ.
#[derive(Debug, Clone, Copy, PartialEq, Eq, Structural)]
pub struct BufferChar {
    /// The composed character currently shown.
    pub ch: char,
    /// The key originally pressed.
    pub raw: char,
    /// Whether `ch` differs from `raw`.
    pub transformed: bool,
}

impl BufferChar {
    /// A position showing `ch` for the pressed key `raw`.
    pub fn new(ch: char, raw: char) -> (r: Self)
        ensures
            r == (BufferChar { ch, raw, transformed: ch != raw }),
    {
        BufferChar { ch, raw, transformed: ch != raw }
    }

    /// A position whose shown character is the key itself.
    pub fn simple(ch: char) -> (r: Self)
        ensures
            r == (BufferChar { ch, raw: ch, transformed: false }),
    {
        BufferChar::new(ch, ch)
    }
}

/// The shown characters of a buffer content.
pub open spec fn spec_text(s: Seq<BufferChar>) -> Seq<char> {
    s.map_values(|bc: BufferChar| bc.ch)
}

/// The raw characters of a buffer content.
pub open spec fn spec_raw(s: Seq<BufferChar>) -> Seq<char> {
    s.map_values(|bc: BufferChar| bc.raw)
}

/// The positions of the buffer whose shown character is a vowel.
pub open spec fn spec_vowel_indices(s: Seq<BufferChar>) -> Seq<usize>
    decreases s.len(),
{
    if s.len() == 0 {
        Seq::empty()
    } else {
        spec_vowel_indices(s.drop_last()) + if spec_is_vowel_char(s.last().ch) {
            seq![(s.len() - 1) as usize]
        } else {
            Seq::empty()
        }
    }
}

/// The bounded composition buffer of the character engine.
#[derive(Debug)]
pub struct Buffer {
    pub chars: Vec<BufferChar>,
}

impl Buffer {
    /// The buffer stays within its capacity.
    pub open spec fn wf(&self) -> bool {
        self.chars@.len() <= MAX_BUFFER_SIZE
    }

    /// A fresh empty buffer.
    pub fn new() -> (r: Self)
        ensures
            r.wf(),
            r.chars@.len() == 0,
    {
        Buffer { chars: Vec::new() }
    }

    /// Append a character with its raw key; full buffers drop the push.
    pub fn push(&mut self, ch: char, raw: char)
        requires
            old(self).wf(),
        ensures
            final(self).wf(),
            old(self).chars@.len() < MAX_BUFFER_SIZE ==> final(self).chars@
                == old(self).chars@.push(BufferChar { ch, raw, transformed: ch != raw }),
            old(self).chars@.len() >= MAX_BUFFER_SIZE ==> *final(self) == *old(self),
    {
        if self.chars.len() < MAX_BUFFER_SIZE {
            self.chars.push(BufferChar::new(ch, raw));
        }
    }

    /// Append a character whose raw key is itself.
    pub fn push_simple(&mut self, ch: char)
        requires
            old(self).wf(),
        ensures
            final(self).wf(),
            old(self).chars@.len() < MAX_BUFFER_SIZE ==> final(self).chars@
                == old(self).chars@.push(BufferChar { ch, raw: ch, transformed: false }),
            old(self).chars@.len() >= MAX_BUFFER_SIZE ==> *final(self) == *old(self),
    {
        self.push(ch, ch);
    }

    /// Remove and return the last position.
    pub fn pop(&mut self) -> (r: Option<BufferChar>)
        requires
            old(self).wf(),
        ensures
            final(self).wf(),
            old(self).chars@.len() == 0 ==> r is None && *final(self) == *old(self),
            old(self).chars@.len() > 0 ==> r == Some(old(self).chars@.last())
                && final(self).chars@ == old(self).chars@.drop_last(),
    {
        if self.chars.len() == 0 {
            None
        } else {
            self.chars.pop()
        }
    }

    /// Empty the buffer.
    pub fn clear(&mut self)
        ensures
            final(self).wf(),
            final(self).chars@ == Seq::<BufferChar>::empty(),
    {
        self.chars.clear();
        proof {
            assert(self.chars@ =~= Seq::<BufferChar>::empty());
        }
    }

    /// The number of positions held.
    pub fn len(&self) -> (r: usize)
        ensures
            r == self.chars@.len(),
    {
        self.chars.len()
    }

    /// Whether the buffer holds nothing.
    pub fn is_empty(&self) -> (r: bool)
        ensures
            r == (self.chars@.len() == 0),
    {
        self.chars.len() == 0
    }

    /// The position at an index.
    pub fn get(&self, index: usize) -> (r: Option<&BufferChar>)
        ensures
            index < self.chars@.len() ==> r is Some && *r->Some_0 == self.chars@[index as int],
            index >= self.chars@.len() ==> r is None,
    {
        if index < self.chars.len() {
            Some(&self.chars[index])
        } else {
            None
        }
    }

    /// The last position.
    pub fn last(&self) -> (r: Option<&BufferChar>)
        ensures
            self.chars@.len() > 0 ==> r is Some && *r->Some_0 == self.chars@.last(),
            self.chars@.len() == 0 ==> r is None,
    {
        if self.chars.len() > 0 {
            Some(&self.chars[self.chars.len() - 1])
        } else {
            None
        }
    }

    /// Replace the shown character at an index, marking the position
    /// transformed exactly when it now differs from its raw key.  Returns
    /// whether the index was in range.
    pub fn replace(&mut self, index: usize, ch: char) -> (r: bool)
        requires
            old(self).wf(),
        ensures
            final(self).wf(),
            r == (index < old(self).chars@.len()),
            index < old(self).chars@.len() ==> final(self).chars@ == old(self).chars@.update(
                index as int,
                BufferChar {
                    ch,
                    raw: old(self).chars@[index as int].raw,
                    transformed: ch != old(self).chars@[index as int].raw,
                },
            ),
            index >= old(self).chars@.len() ==> *final(self) == *old(self),
    {
        if index < self.chars.len() {
            let raw = self.chars[index].raw;
            self.chars.set(index, BufferChar::new(ch, raw));
            true
        } else {
            false
        }
    }

    /// The shown characters, as a vector.
    pub fn text_chars(&self) -> (r: Vec<char>)
        ensures
            r@ == spec_text(self.chars@),
    {
        let mut r: Vec<char> = Vec::new();
        let mut i: usize = 0;
        while i < self.chars.len()
            invariant
                i <= self.chars@.len(),
                r@ == spec_text(self.chars@).take(i as int),
            decreases self.chars@.len() - i,
        {
            r.push(self.chars[i].ch);
            i += 1;
            proof {
                assert(r@ =~= spec_text(self.chars@).take(i as int));
            }
        }
        proof {
            assert(spec_text(self.chars@).take(self.chars@.len() as int) =~= spec_text(
                self.chars@,
            ));
        }
        r
    }

    /// The raw keys, as a vector.
    pub fn raw_chars(&self) -> (r: Vec<char>)
        ensures
            r@ == spec_raw(self.chars@),
    {
        let mut r: Vec<char> = Vec::new();
        let mut i: usize = 0;
        while i < self.chars.len()
            invariant
                i <= self.chars@.len(),
                r@ == spec_raw(self.chars@).take(i as int),
            decreases self.chars@.len() - i,
        {
            r.push(self.chars[i].raw);
            i += 1;
            proof {
                assert(r@ =~= spec_raw(self.chars@).take(i as int));
            }
        }
        proof {
            assert(spec_raw(self.chars@).take(self.chars@.len() as int) =~= spec_raw(self.chars@));
        }
        r
    }

    /// The shown text of the buffer.
    pub fn get_text(&self) -> (r: String)
        ensures
            r@ == spec_text(self.chars@),
    {
        let chars = self.text_chars();
        string_of_chars(&chars)
    }

    /// The raw input of the buffer.
    pub fn get_raw(&self) -> (r: String)
        ensures
            r@ == spec_raw(self.chars@),
    {
        let chars = self.raw_chars();
        string_of_chars(&chars)
    }

    /// The index of the last vowel, if any.
    pub fn find_last_vowel(&self) -> (r: Option<usize>)
        ensures
            ({
                let vi = spec_vowel_indices(self.chars@);
                if vi.len() == 0 {
                    r is None
                } else {
                    r == Some(vi.last())
                }
            }),
    {
        let vowels = self.find_vowels();
        if vowels.len() == 0 {
            None
        } else {
            Some(vowels[vowels.len() - 1])
        }
    }

    /// The indices of all vowel positions, in increasing order.
    pub fn find_vowels(&self) -> (r: Vec<usize>)
        ensures
            r@ == spec_vowel_indices(self.chars@),
    {
        let mut r: Vec<usize> = Vec::new();
        let mut i: usize = 0;
        while i < self.chars.len()
            invariant
                i <= self.chars@.len(),
                r@ == spec_vowel_indices(self.chars@.take(i as int)),
            decreases self.chars@.len() - i,
        {
            proof {
                assert(self.chars@.take(i + 1).drop_last() =~= self.chars@.take(i as int));
                assert(self.chars@.take(i + 1).last() == self.chars@[i as int]);
            }
            if crate::chars::is_vowel(self.chars[i].ch) {
                r.push(i);
            }
            i += 1;
        }
        proof {
            assert(self.chars@.take(self.chars@.len() as int) =~= self.chars@);
        }
        r
    }
}

impl Default for Buffer {
    fn default() -> (r: Self)
        ensures
            r.wf(),
            r.chars@.len() == 0,
    {
        Buffer::new()
    }
}


} // verus!
