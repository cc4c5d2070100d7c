use vstd::prelude::*;

verus! {

/// Where the first item of `s` that meets `p` stands; the length of `s` where none does.
pub open spec fn position<T>(s: Seq<T>, p: spec_fn(T) -> bool) -> int
    decreases s.len(),
{
    if s.len() == 0 {
        0
    } else if p(s[0]) {
        0
    } else {
        1 + position(s.drop_first(), p)
    }
}

/// `position` lies within `s` or at its end, the item there meets `p`, and none before it does.
pub proof fn lemma_position_bounds<T>(s: Seq<T>, p: spec_fn(T) -> bool)
    ensures
        0 <= position(s, p) <= s.len(),
        position(s, p) < s.len() ==> p(s[position(s, p)]),
        forall|j: int| 0 <= j < position(s, p) ==> !p(#[trigger] s[j]),
    decreases s.len(),
{
    if s.len() > 0 && !p(s[0]) {
        let t = s.drop_first();
        lemma_position_bounds(t, p);
        assert forall|j: int| 0 <= j < position(s, p) implies !p(#[trigger] s[j]) by {
            if j > 0 {
                assert(s[j] == t[j - 1]);
            }
        }
    }
}

/// A place before which no item meets `p`, and which is the end or holds one that does, is
/// `position`.
pub proof fn lemma_position_is<T>(s: Seq<T>, p: spec_fn(T) -> bool, k: int)
    requires
        0 <= k <= s.len(),
        forall|j: int| 0 <= j < k ==> !p(#[trigger] s[j]),
        k < s.len() ==> p(s[k]),
    ensures
        position(s, p) == k,
    decreases s.len(),
{
    if s.len() > 0 && k > 0 {
        let t = s.drop_first();
        assert(!p(s[0]));
        assert forall|j: int| 0 <= j < k - 1 implies !p(#[trigger] t[j]) by {
            assert(t[j] == s[j + 1]);
        }
        lemma_position_is(t, p, k - 1);
    }
}

/// The items of `s` that meet `p`, in their order.
pub open spec fn select<T>(s: Seq<T>, p: spec_fn(T) -> bool) -> Seq<T>
    decreases s.len(),
{
    if s.len() == 0 {
        Seq::empty()
    } else if p(s.last()) {
        select(s.drop_last(), p).push(s.last())
    } else {
        select(s.drop_last(), p)
    }
}

} // verus!
