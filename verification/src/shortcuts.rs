//! A lightweight abbreviation list with case-insensitive suffix matching:
//! the longest trigger that ends the buffer wins.

use vstd::prelude::*;
use crate::strings::chars_of_str;
use crate::validation::spec_lower_seq;

verus! {

/// One abbreviation: the text to type and what it expands to.
#[derive(Debug, Clone)]
pub struct Shortcut {
    pub trigger: String,
    pub expansion: String,
}

impl Shortcut {
    /// A new abbreviation.
    pub fn new(trigger: &str, expansion: &str) -> (r: Self)
        ensures
            r.trigger@ == trigger@,
            r.expansion@ == expansion@,
    {
        Shortcut { trigger: String::from_str(trigger), expansion: String::from_str(expansion) }
    }
}

/// One lowercased sequence ends with another.
pub open spec fn spec_ends_with(s: Seq<char>, pat: Seq<char>) -> bool {
    pat.len() <= s.len() && s.skip(s.len() - pat.len()) == pat
}

/// One sequence starts with another.
pub open spec fn spec_starts_with(s: Seq<char>, pat: Seq<char>) -> bool {
    pat.len() <= s.len() && s.take(pat.len() as int) == pat
}

fn ends_with_chars(s: &Vec<char>, pat: &Vec<char>) -> (r: bool)
    ensures
        r == spec_ends_with(s@, pat@),
{
    if pat.len() > s.len() {
        return false;
    }
    let n = s.len();
    let m = pat.len();
    let off = n - m;
    let mut i: usize = 0;
    while i < m
        invariant
            i <= m,
            m == pat@.len(),
            n == s@.len(),
            m <= n,
            off == n - m,
            forall|j: int| 0 <= j < i ==> s@[off + j] == pat@[j],
        decreases m - i,
    {
        if s[off + i] != pat[i] {
            proof {
                assert(s@.skip(s@.len() - pat@.len())[i as int] == s@[off + i]);
            }
            return false;
        }
        i += 1;
    }
    proof {
        assert(s@.skip(s@.len() - pat@.len()) =~= pat@);
    }
    true
}

fn starts_with_chars(s: &Vec<char>, pat: &Vec<char>) -> (r: bool)
    ensures
        r == spec_starts_with(s@, pat@),
{
    if pat.len() > s.len() {
        return false;
    }
    let mut i: usize = 0;
    while i < pat.len()
        invariant
            i <= pat@.len(),
            pat@.len() <= s@.len(),
            forall|j: int| 0 <= j < i ==> s@[j] == pat@[j],
        decreases pat@.len() - i,
    {
        if s[i] != pat[i] {
            proof {
                assert(s@.take(pat@.len() as int)[i as int] == s@[i as int]);
            }
            return false;
        }
        i += 1;
    }
    proof {
        assert(s@.take(pat@.len() as int) =~= pat@);
    }
    true
}

/// The index of the best match in the first `k` entries: the first entry
/// whose lowercased trigger ends the lowercased buffer, where a strictly
/// longer trigger later in the list takes over.
pub open spec fn spec_best_match(entries: Seq<Shortcut>, low: Seq<char>, k: int) -> Option<int>
    decreases k,
{
    if k <= 0 {
        None
    } else {
        let prev = spec_best_match(entries, low, k - 1);
        let e = entries[k - 1];
        if spec_ends_with(low, spec_lower_seq(e.trigger@)) {
            match prev {
                Some(b) => if entries[b].trigger@.len() >= e.trigger@.len() {
                    prev
                } else {
                    Some(k - 1)
                },
                None => Some(k - 1),
            }
        } else {
            prev
        }
    }
}

/// The abbreviation list.
#[derive(Debug, Default)]
pub struct ShortcutTable {
    pub all: Vec<Shortcut>,
}

impl ShortcutTable {
    /// A fresh empty list.
    pub fn new() -> (r: Self)
        ensures
            r.all@.len() == 0,
    {
        ShortcutTable { all: Vec::new() }
    }

    /// Append an abbreviation.
    pub fn add(&mut self, trigger: &str, expansion: &str)
        ensures
            final(self).all@.len() == old(self).all@.len() + 1,
            final(self).all@.last().trigger@ == trigger@,
            final(self).all@.last().expansion@ == expansion@,
            final(self).all@.take(old(self).all@.len() as int) == old(self).all@,
    {
        self.all.push(Shortcut::new(trigger, expansion));
        proof {
            assert(final(self).all@.take(old(self).all@.len() as int) =~= old(self).all@);
        }
    }

    /// Append many abbreviations.
    pub fn add_all(&mut self, pairs: Vec<(String, String)>)
        ensures
            final(self).all@.len() == old(self).all@.len() + pairs@.len(),
    {
        let mut i: usize = 0;
        while i < pairs.len()
            invariant
                i <= pairs@.len(),
                self.all@.len() == old(self).all@.len() + i,
            decreases pairs@.len() - i,
        {
            let trigger = pairs[i].0.clone();
            let expansion = pairs[i].1.clone();
            self.all.push(
                Shortcut { trigger, expansion },
            );
            i += 1;
        }
    }

    /// The longest abbreviation that ends the buffer, matched without
    /// regard to case.
    pub fn find_match(&self, buffer: &str) -> (r: Option<&Shortcut>)
        ensures
            match spec_best_match(self.all@, spec_lower_seq(buffer@), self.all@.len() as int) {
                Some(i) => r is Some && *r->Some_0 == self.all@[i],
                None => r is None,
            },
    {
        let bufc = chars_of_str(buffer);
        let low = crate::validation::lower_chars(&bufc);
        let mut best: Option<usize> = None;
        let mut k: usize = 0;
        while k < self.all.len()
            invariant
                k <= self.all@.len(),
                low@ == spec_lower_seq(buffer@),
                match best {
                    Some(b) => b < k && spec_best_match(self.all@, low@, k as int) == Some(
                        b as int,
                    ),
                    None => spec_best_match(self.all@, low@, k as int) is None,
                },
            decreases self.all@.len() - k,
        {
            let tchars = chars_of_str(self.all[k].trigger.as_str());
            let tlow = crate::validation::lower_chars(&tchars);
            if ends_with_chars(&low, &tlow) {
                match best {
                    Some(b) => {
                        let blen = self.all[b].trigger.as_str().unicode_len();
                        let tlen = self.all[k].trigger.as_str().unicode_len();
                        if blen >= tlen {
                        } else {
                            best = Some(k);
                        }
                    },
                    None => {
                        best = Some(k);
                    },
                }
            }
            k += 1;
        }
        match best {
            Some(b) => Some(&self.all[b]),
            None => None,
        }
    }

    /// Whether some abbreviation's lowercased trigger begins with the
    /// lowercased buffer, so typing on may still reach it.
    pub fn has_potential_match(&self, buffer: &str) -> (r: bool)
        ensures
            r == exists|i: int|
                0 <= i < self.all@.len() && spec_starts_with(
                    spec_lower_seq(self.all@[i].trigger@),
                    spec_lower_seq(buffer@),
                ),
    {
        let bufc = chars_of_str(buffer);
        let low = crate::validation::lower_chars(&bufc);
        let mut i: usize = 0;
        while i < self.all.len()
            invariant
                i <= self.all@.len(),
                low@ == spec_lower_seq(buffer@),
                forall|j: int|
                    0 <= j < i ==> !spec_starts_with(
                        spec_lower_seq(self.all@[j].trigger@),
                        spec_lower_seq(buffer@),
                    ),
            decreases self.all@.len() - i,
        {
            let tchars = chars_of_str(self.all[i].trigger.as_str());
            let tlow = crate::validation::lower_chars(&tchars);
            if starts_with_chars(&tlow, &low) {
                return true;
            }
            i += 1;
        }
        false
    }

    /// Drop every abbreviation.
    pub fn clear(&mut self)
        ensures
            final(self).all@.len() == 0,
    {
        self.all.clear();
    }

    /// The number of abbreviations held.
    pub fn len(&self) -> (r: usize)
        ensures
            r == self.all@.len(),
    {
        self.all.len()
    }

    /// Whether the list is empty.
    pub fn is_empty(&self) -> (r: bool)
        ensures
            r == (self.all@.len() == 0),
    {
        self.all.len() == 0
    }
}

/// The commonly used Vietnamese abbreviations.
pub fn default_shortcuts() -> (r: ShortcutTable)
    ensures
        r.all@.len() == 13,
{
    let mut table = ShortcutTable::new();
    table.add("ko", "không");
    table.add("dc", "được");
    table.add("vs", "với");
    table.add("ng", "người");
    table.add("ntn", "như thế nào");
    table.add("bt", "bình thường");
    table.add("vd", "ví dụ");
    table.add("tg", "thời gian");
    table.add("nc", "nước");
    table.add("ck", "chồng");
    table.add("vk", "vợ");
    table.add("nyc", "người yêu cũ");
    table.add("ny", "người yêu");
    table
}

} // verus!
