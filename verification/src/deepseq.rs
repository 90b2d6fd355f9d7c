//! Lemmas connecting a vector of strings with the sequence of character
//! sequences it denotes. Contracts throughout the crate speak of the latter;
//! executable code edits the former.

use vstd::prelude::*;

verus! {

/// The character sequences denoted by a sequence of strings.
pub open spec fn deep(s: Seq<String>) -> Seq<Seq<char>> {
    Seq::new(s.len(), |i: int| s[i]@)
}

/// A vector's deep view is the deep view of its element sequence.
pub proof fn lemma_vec_deep(v: Vec<String>)
    ensures
        v.deep_view() == deep(v@),
{
    assert(v.deep_view() =~= deep(v@));
}

pub proof fn lemma_deep_remove(s: Seq<String>, i: int)
    requires
        0 <= i < s.len(),
    ensures
        deep(s.remove(i)) == deep(s).remove(i),
{
    assert(deep(s.remove(i)) =~= deep(s).remove(i));
}

pub proof fn lemma_deep_reverse(s: Seq<String>)
    ensures
        deep(s.reverse()) == deep(s).reverse(),
{
    assert(deep(s.reverse()) =~= deep(s).reverse());
}

pub proof fn lemma_deep_subrange(s: Seq<String>, a: int, b: int)
    requires
        0 <= a <= b <= s.len(),
    ensures
        deep(s.subrange(a, b)) == deep(s).subrange(a, b),
{
    assert(deep(s.subrange(a, b)) =~= deep(s).subrange(a, b));
}

/// Reverse a vector of strings in place.
pub fn reverse_vec(v: &mut Vec<String>)
    ensures
        final(v)@ == old(v)@.reverse(),
{
    let ghost orig: Seq<String> = v@;
    let mut out: Vec<String> = Vec::new();
    loop
        invariant
            v@.len() <= orig.len(),
            v@ =~= orig.subrange(0, v@.len() as int),
            out@ =~= orig.subrange(v@.len() as int, orig.len() as int).reverse(),
        ensures
            v@.len() == 0,
            out@ =~= orig.reverse(),
        decreases v@.len(),
    {
        let ghost m: int = v@.len() as int;
        let ghost held: Seq<String> = v@;
        match v.pop() {
            Some(x) => {
                out.push(x);
                proof {
                    assert(v@ =~= orig.subrange(0, m - 1));
                    assert(x == orig[m - 1]);
                    assert(out@ =~= orig.subrange(m - 1, orig.len() as int).reverse());
                }
            },
            None => {
                proof {
                    assert(out@ =~= orig.reverse());
                }
                break ;
            },
        }
    }
    *v = out;
}

} // verus!
