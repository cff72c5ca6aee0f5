//! Facts about sequences that several modules need: the first element
//! with a property, and filtering.

use vstd::prelude::*;

verus! {

/// The first position of `s` whose element satisfies `p`; the length of
/// `s` if there is none.
pub open spec fn first_where<T>(s: Seq<T>, p: spec_fn(T) -> bool) -> int
    decreases s.len(),
{
    if s.len() == 0 {
        0
    } else if p(s[0]) {
        0
    } else {
        1 + first_where(s.drop_first(), p)
    }
}

/// `first_where` is the one position before which nothing satisfies `p`
/// and at which `p` holds or the sequence ends.
pub proof fn lemma_first_where<T>(s: Seq<T>, p: spec_fn(T) -> bool, i: int)
    requires
        0 <= i <= s.len(),
        forall|k: int| 0 <= k < i ==> !p(s[k]),
        i < s.len() ==> p(s[i]),
    ensures
        first_where(s, p) == i,
    decreases s.len(),
{
    if s.len() > 0 && i > 0 {
        let rest = s.drop_first();
        assert(!p(s[0]));
        assert forall|k: int| 0 <= k < i - 1 implies !p(rest[k]) by {
            assert(rest[k] == s[k + 1]);
        }
        lemma_first_where(rest, p, i - 1);
    }
}

/// What `first_where` returns lies within the sequence or at its end; `p`
/// fails before it and holds at it.
pub proof fn lemma_first_where_props<T>(s: Seq<T>, p: spec_fn(T) -> bool)
    ensures
        0 <= first_where(s, p) <= s.len(),
        forall|k: int| 0 <= k < first_where(s, p) ==> !p(#[trigger] s[k]),
        first_where(s, p) < s.len() ==> p(s[first_where(s, p)]),
    decreases s.len(),
{
    if s.len() > 0 && !p(s[0]) {
        let rest = s.drop_first();
        lemma_first_where_props(rest, p);
        assert forall|k: int| 0 <= k < first_where(s, p) implies !p(#[trigger] s[k]) by {
            if k > 0 {
                assert(s[k] == rest[k - 1]);
            }
        }
    }
}

/// Filtering nothing gives nothing.
pub proof fn lemma_filter_empty<T>(s: Seq<T>, p: spec_fn(T) -> bool)
    ensures
        s.take(0).filter(p) == Seq::<T>::empty(),
        s.take(0).filter(p).len() == 0,
{
    reveal(Seq::filter);
    assert(s.take(0).filter(p) =~= Seq::<T>::empty());
}

/// Filtering one element more: the element is appended if it passes.
pub proof fn lemma_filter_step<T>(s: Seq<T>, p: spec_fn(T) -> bool, i: int)
    requires
        0 <= i < s.len(),
    ensures
        s.take(i + 1).filter(p) == if p(s[i]) {
            s.take(i).filter(p).push(s[i])
        } else {
            s.take(i).filter(p)
        },
{
    reveal(Seq::filter);
    assert(s.take(i + 1).drop_last() =~= s.take(i));
}

/// The filter of a prefix is a prefix of the filter.
pub proof fn lemma_filter_prefix<T>(s: Seq<T>, p: spec_fn(T) -> bool, i: int)
    requires
        0 <= i <= s.len(),
    ensures
        s.take(i).filter(p) == s.filter(p).take(s.take(i).filter(p).len() as int),
        s.take(i).filter(p).len() <= s.filter(p).len(),
{
    assert(s =~= s.take(i) + s.skip(i));
    Seq::filter_distributes_over_add(s.take(i), s.skip(i), p);
    let a = s.take(i).filter(p);
    let b = s.skip(i).filter(p);
    assert((a + b).take(a.len() as int) =~= a);
}

/// Each element of a filtered sequence stands at some position of the
/// unfiltered sequence.
pub proof fn lemma_filter_position<T>(s: Seq<T>, p: spec_fn(T) -> bool, a: int) -> (r: int)
    requires
        0 <= a < s.filter(p).len(),
    ensures
        0 <= r < s.len(),
        s[r] == s.filter(p)[a],
    decreases s.len(),
{
    reveal(Seq::filter);
    let front = s.drop_last();
    if p(s.last()) {
        assert(s.filter(p) == front.filter(p).push(s.last()));
        if a == front.filter(p).len() {
            s.len() - 1
        } else {
            lemma_filter_position(front, p, a)
        }
    } else {
        assert(s.filter(p) == front.filter(p));
        lemma_filter_position(front, p, a)
    }
}

/// Filtering keeps the order: for each pair of positions of the result
/// there is a pair of positions of the unfiltered sequence, in that order, with
/// the same elements.
pub proof fn lemma_filter_positions<T>(s: Seq<T>, p: spec_fn(T) -> bool, a: int, b: int) -> (r: (
    int,
    int,
))
    requires
        0 <= a < b < s.filter(p).len(),
    ensures
        0 <= r.0 < r.1 < s.len(),
        s[r.0] == s.filter(p)[a],
        s[r.1] == s.filter(p)[b],
    decreases s.len(),
{
    reveal(Seq::filter);
    let front = s.drop_last();
    if p(s.last()) {
        assert(s.filter(p) == front.filter(p).push(s.last()));
        if b == front.filter(p).len() {
            let x = lemma_filter_position(front, p, a);
            (x, s.len() - 1)
        } else {
            lemma_filter_positions(front, p, a, b)
        }
    } else {
        assert(s.filter(p) == front.filter(p));
        lemma_filter_positions(front, p, a, b)
    }
}

} // verus!
