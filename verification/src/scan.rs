//! The one search shape every query uses: a linear scan over a sequence,
//! first match wins. `first_match` is the mathematical account of such a
//! scan; the lemmas connect it, and `Seq::filter`, to the loops that
//! implement the queries.

use vstd::prelude::*;

verus! {

/// The first element of `s`, in order, that satisfies `pred`; `None` when
/// no element does.
pub open spec fn first_match<A>(s: Seq<A>, pred: spec_fn(A) -> bool) -> Option<A>
    decreases s.len(),
{
    if s.len() == 0 {
        None
    } else if pred(s[0]) {
        Some(s[0])
    } else {
        first_match(s.drop_first(), pred)
    }
}

/// A scan that has rejected everything before position `i` and matches at
/// `i` returns exactly the element at `i`.
pub proof fn lemma_first_match_found<A>(s: Seq<A>, pred: spec_fn(A) -> bool, i: int)
    requires
        0 <= i < s.len(),
        pred(s[i]),
        forall|j: int| 0 <= j < i ==> !pred(#[trigger] s[j]),
    ensures
        first_match(s, pred) == Some(s[i]),
    decreases i,
{
    if i == 0 {
    } else {
        assert(!pred(s[0]));
        lemma_first_match_found(s.drop_first(), pred, i - 1);
        assert(s.drop_first()[i - 1] == s[i]);
    }
}

/// A scan over a sequence none of whose elements match returns `None`.
pub proof fn lemma_first_match_none<A>(s: Seq<A>, pred: spec_fn(A) -> bool)
    requires
        forall|j: int| 0 <= j < s.len() ==> !pred(#[trigger] s[j]),
    ensures
        first_match(s, pred) is None,
    decreases s.len(),
{
    if s.len() != 0 {
        lemma_first_match_none(s.drop_first(), pred);
    }
}

/// A scan over a sequence with a matching element somewhere finds
/// something.
pub proof fn lemma_first_match_some<A>(s: Seq<A>, pred: spec_fn(A) -> bool, i: int)
    requires
        0 <= i < s.len(),
        pred(s[i]),
    ensures
        first_match(s, pred) is Some,
    decreases i,
{
    if !pred(s[0]) {
        assert(s.drop_first()[i - 1] == s[i]);
        lemma_first_match_some(s.drop_first(), pred, i - 1);
    }
}

/// What a scan finds is an element of the sequence, and it matches.
pub proof fn lemma_first_match_is_match<A>(s: Seq<A>, pred: spec_fn(A) -> bool)
    ensures
        match first_match(s, pred) {
            None => true,
            Some(c) => pred(c) && s.contains(c),
        },
    decreases s.len(),
{
    if s.len() != 0 && !pred(s[0]) {
        lemma_first_match_is_match(s.drop_first(), pred);
        match first_match(s.drop_first(), pred) {
            None => {},
            Some(c) => {
                let j = choose|j: int| 0 <= j < s.drop_first().len() && s.drop_first()[j] == c;
                assert(s[j + 1] == c);
            },
        }
    }
}

/// Filtering distributes over appending one element at the back: the
/// element is kept exactly when it matches.
pub proof fn lemma_filter_push<A>(s: Seq<A>, x: A, pred: spec_fn(A) -> bool)
    ensures
        s.push(x).filter(pred) == if pred(x) {
            s.filter(pred).push(x)
        } else {
            s.filter(pred)
        },
{
    reveal(Seq::filter);
    assert(s.push(x).drop_last() =~= s);
    assert(s.push(x).last() == x);
}

/// Filtering a sequence none of whose elements match yields the empty
/// sequence.
pub proof fn lemma_filter_no_match<A>(s: Seq<A>, pred: spec_fn(A) -> bool)
    requires
        forall|j: int| 0 <= j < s.len() ==> !pred(#[trigger] s[j]),
    ensures
        s.filter(pred) == Seq::<A>::empty(),
    decreases s.len(),
{
    reveal(Seq::filter);
    if s.len() != 0 {
        assert(forall|j: int| 0 <= j < s.drop_last().len() ==> !pred(#[trigger] s.drop_last()[j]));
        lemma_filter_no_match(s.drop_last(), pred);
        assert(!pred(s.last()));
    }
}

} // verus!
