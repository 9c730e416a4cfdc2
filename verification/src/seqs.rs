//! First-match search over sequences, as used for every lookup by id.
use vstd::prelude::*;

verus! {

/// Index of the first element of `s` that satisfies `p`, or -1 when none does.
pub open spec fn first_index<A>(s: Seq<A>, p: spec_fn(A) -> bool) -> int
    decreases s.len(),
{
    if s.len() == 0 {
        -1
    } else {
        let k = first_index(s.drop_last(), p);
        if k >= 0 {
            k
        } else if p(s.last()) {
            s.len() - 1
        } else {
            -1
        }
    }
}

/// `first_index` is -1 exactly when no element matches, and otherwise names the
/// earliest match.
pub proof fn lemma_first_index<A>(s: Seq<A>, p: spec_fn(A) -> bool)
    ensures
        first_index(s, p) == -1 <==> (forall|i: int| 0 <= i < s.len() ==> !p(#[trigger] s[i])),
        first_index(s, p) != -1 ==> {
            let r = first_index(s, p);
            &&& 0 <= r < s.len()
            &&& p(s[r])
            &&& forall|j: int| 0 <= j < r ==> !p(#[trigger] s[j])
        },
    decreases s.len(),
{
    if s.len() > 0 {
        lemma_first_index(s.drop_last(), p);
        let k = first_index(s.drop_last(), p);
        assert(forall|i: int| 0 <= i < s.len() - 1 ==> s.drop_last()[i] == s[i]);
        if k < 0 && !p(s.last()) {
            assert forall|i: int| 0 <= i < s.len() implies !p(#[trigger] s[i]) by {
                if i < s.len() - 1 {
                    assert(s[i] == s.drop_last()[i]);
                }
            }
        }
    }
}

/// Any index that matches while all earlier ones do not is the first index.
pub proof fn lemma_first_index_unique<A>(s: Seq<A>, p: spec_fn(A) -> bool, i: int)
    requires
        0 <= i < s.len(),
        p(s[i]),
        forall|j: int| 0 <= j < i ==> !p(#[trigger] s[j]),
    ensures
        first_index(s, p) == i,
{
    lemma_first_index(s, p);
    let r = first_index(s, p);
    if r != i {
        if r < i {
            assert(!p(s[r]));
        } else {
            assert(p(s[i]));
        }
    }
}

/// When no element matches, the first index is -1.
pub proof fn lemma_first_index_none<A>(s: Seq<A>, p: spec_fn(A) -> bool)
    requires
        forall|j: int| 0 <= j < s.len() ==> !p(#[trigger] s[j]),
    ensures
        first_index(s, p) == -1,
{
    lemma_first_index(s, p);
}

} // verus!

verus! {

/// Extending a prefix by one element extends the first-match search by one step.
pub proof fn lemma_first_index_take<A>(s: Seq<A>, p: spec_fn(A) -> bool, i: int)
    requires
        0 <= i < s.len(),
    ensures
        first_index(s.take(i + 1), p) == ({
            let k = first_index(s.take(i), p);
            if k >= 0 {
                k
            } else if p(s[i]) {
                i
            } else {
                -1
            }
        }),
{
    assert(s.take(i + 1).drop_last() =~= s.take(i));
}

} // verus!
