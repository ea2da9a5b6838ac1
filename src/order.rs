//! Rearrangements of sequences by a selection mask, used for the structural
//! edits of segments.

use vstd::prelude::*;

verus! {

/// `s` with the elements at `j` and `j + 1` exchanged.
pub open spec fn swap_adjacent<A>(s: Seq<A>, j: int) -> Seq<A> {
    s.update(j, s[j + 1]).update(j + 1, s[j])
}

/// The elements of `s` whose place is not marked in `sel`, in order.
pub open spec fn kept<A>(s: Seq<A>, sel: Seq<bool>) -> Seq<A>
    decreases s.len(),
{
    if s.len() == 0 {
        s
    } else {
        let n = s.len() - 1;
        let k = kept(s.take(n), sel);
        if sel[n] {
            k
        } else {
            k.push(s[n])
        }
    }
}

/// `s` after each marked element among the first `k`, from the second one
/// on, is exchanged with the one before it, in increasing order.
pub open spec fn raised<A>(s: Seq<A>, sel: Seq<bool>, k: int) -> Seq<A>
    decreases k,
{
    if k <= 1 {
        s
    } else {
        let t = raised(s, sel, k - 1);
        if sel[k - 1] {
            swap_adjacent(t, k - 2)
        } else {
            t
        }
    }
}

/// `s` after each marked element from place `k` up to the one before last
/// is exchanged with the one after it, in decreasing order.
pub open spec fn lowered<A>(s: Seq<A>, sel: Seq<bool>, k: int) -> Seq<A>
    decreases s.len() - k,
{
    if k >= s.len() - 1 {
        s
    } else {
        let t = lowered(s, sel, k + 1);
        if sel[k] {
            swap_adjacent(t, k)
        } else {
            t
        }
    }
}

/// Keeping the marked-out elements of one more element of `s`.
pub proof fn lemma_kept_step<A>(s: Seq<A>, sel: Seq<bool>, j: int)
    requires
        0 <= j < s.len(),
    ensures
        kept(s.take(j + 1), sel) == (if sel[j] {
            kept(s.take(j), sel)
        } else {
            kept(s.take(j), sel).push(s[j])
        }),
{
    assert(s.take(j + 1).take(j) =~= s.take(j));
}

/// Two sequences of one length keep as many elements under one mask.
pub proof fn lemma_kept_len<A, B>(s: Seq<A>, t: Seq<B>, sel: Seq<bool>)
    requires
        s.len() == t.len(),
    ensures
        kept(s, sel).len() == kept(t, sel).len(),
    decreases s.len(),
{
    if s.len() > 0 {
        lemma_kept_len(s.take(s.len() - 1), t.take(t.len() - 1), sel);
    }
}

pub proof fn lemma_raised_len<A>(s: Seq<A>, sel: Seq<bool>, k: int)
    requires
        k <= s.len(),
    ensures
        raised(s, sel, k).len() == s.len(),
    decreases k,
{
    if k > 1 {
        lemma_raised_len(s, sel, k - 1);
    }
}

pub proof fn lemma_lowered_len<A>(s: Seq<A>, sel: Seq<bool>, k: int)
    requires
        0 <= k,
    ensures
        lowered(s, sel, k).len() == s.len(),
    decreases s.len() - k,
{
    if k < s.len() - 1 {
        lemma_lowered_len(s, sel, k + 1);
    }
}

} // verus!
