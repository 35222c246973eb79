//! The edit differ.
//!
//! A change of the rendered buffer is reported to the host as an edit
//! script: erase the last `backspace` code points, then type `insert`.  The
//! script is computed from the longest common prefix of the old and the new
//! rendering, counted in code points.

use vstd::prelude::*;

verus! {

/// The longest common prefix of two character sequences, scanning from
/// position `k`.
pub open spec fn spec_lcp_from(a: Seq<char>, b: Seq<char>, k: int) -> int
    decreases a.len() - k,
{
    if k < 0 || k >= a.len() || k >= b.len() || a[k] != b[k] {
        k
    } else {
        spec_lcp_from(a, b, k + 1)
    }
}

/// The length of the longest common prefix of two character sequences.
pub open spec fn spec_lcp(a: Seq<char>, b: Seq<char>) -> int {
    spec_lcp_from(a, b, 0)
}

/// The edit script from one rendering to the next: erase what follows the
/// common prefix, insert the new tail.
pub open spec fn spec_edit(a: Seq<char>, b: Seq<char>) -> (int, Seq<char>) {
    let k = spec_lcp(a, b);
    (a.len() - k, b.skip(k))
}

/// What a rendering becomes after an edit script is applied to it.
pub open spec fn spec_apply_edit(prior: Seq<char>, backspace: int, insert: Seq<char>) -> Seq<
    char,
> {
    prior.take(prior.len() - backspace) + insert
}

/// The common prefix really is common, and no longer than either sequence.
pub proof fn lemma_lcp_from_properties(a: Seq<char>, b: Seq<char>, k: int)
    requires
        0 <= k <= a.len(),
        k <= b.len(),
    ensures
        k <= spec_lcp_from(a, b, k) <= a.len(),
        spec_lcp_from(a, b, k) <= b.len(),
        forall|j: int| k <= j < spec_lcp_from(a, b, k) ==> a[j] == b[j],
    decreases a.len() - k,
{
    if !(k >= a.len() || k >= b.len() || a[k] != b[k]) {
        lemma_lcp_from_properties(a, b, k + 1);
    }
}

/// The edit script turns the old rendering into the new one, and its cost
/// (backspaces plus inserted code points) is exactly
/// `|a| + |b| - 2 * lcp(a, b)`: no script through the common prefix is
/// shorter.
pub proof fn lemma_edit_exact(a: Seq<char>, b: Seq<char>)
    ensures
        ({
            let (backspace, insert) = spec_edit(a, b);
            spec_apply_edit(a, backspace, insert) == b && backspace + insert.len() == a.len()
                + b.len() - 2 * spec_lcp(a, b)
        }),
{
    lemma_lcp_from_properties(a, b, 0);
    let k = spec_lcp(a, b);
    assert(a.take(k) =~= b.take(k));
    assert(b.take(k) + b.skip(k) =~= b);
    assert(a.take(a.len() - (a.len() - k)) == a.take(k));
}

/// An edit script computed between two renderings applies just as well on
/// a screen that shows the rendering behind an untouched prefix: the tail
/// is rewritten, the prefix survives.
pub proof fn lemma_edit_behind_prefix(prefix: Seq<char>, a: Seq<char>, b: Seq<char>)
    ensures
        ({
            let (backspace, insert) = spec_edit(a, b);
            spec_apply_edit(prefix + a, backspace, insert) == prefix + b
        }),
{
    lemma_lcp_from_properties(a, b, 0);
    let k = spec_lcp(a, b);
    assert((prefix + a).take(prefix.len() + k) =~= prefix + a.take(k));
    assert(a.take(k) =~= b.take(k));
    assert((prefix + b.take(k)) + b.skip(k) =~= prefix + b);
    assert((prefix + a).len() - (a.len() - k) == prefix.len() + k);
}

/// Erasing a whole screen and typing fresh text leaves exactly that text.
pub proof fn lemma_edit_overwrites(screen: Seq<char>, fresh: Seq<char>)
    ensures
        spec_apply_edit(screen, screen.len() as int, fresh) == fresh,
{
    assert(screen.take(0) =~= Seq::<char>::empty());
    assert(Seq::<char>::empty() + fresh =~= fresh);
}

/// Compute the edit script between two renderings.
pub fn compute_edit(old_chars: &Vec<char>, new_chars: &Vec<char>) -> (r: (usize, Vec<char>))
    ensures
        (r.0 as int, r.1@) == spec_edit(old_chars@, new_chars@),
{
    let mut k: usize = 0;
    while k < old_chars.len() && k < new_chars.len() && old_chars[k] == new_chars[k]
        invariant
            0 <= k <= old_chars@.len(),
            k <= new_chars@.len(),
            spec_lcp(old_chars@, new_chars@) == spec_lcp_from(old_chars@, new_chars@, k as int),
        decreases old_chars@.len() - k,
    {
        k += 1;
    }
    let backspace = old_chars.len() - k;
    let mut insert: Vec<char> = Vec::new();
    let mut i: usize = k;
    while i < new_chars.len()
        invariant
            k <= i <= new_chars@.len(),
            insert@ == new_chars@.subrange(k as int, i as int),
        decreases new_chars@.len() - i,
    {
        insert.push(new_chars[i]);
        i += 1;
        proof {
            assert(insert@ =~= new_chars@.subrange(k as int, i as int));
        }
    }
    proof {
        assert(insert@ =~= new_chars@.skip(k as int));
    }
    (backspace, insert)
}

} // verus!
