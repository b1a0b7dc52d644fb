//! The first element with a property, which is what most lookups ask for.

use vstd::prelude::*;

verus! {

/// The position of the first element of `s` at or after `from` that has the
/// property `p`, or the length of `s` when none has.
pub open spec fn first<T>(s: Seq<T>, p: spec_fn(T) -> bool, from: int) -> int
    decreases s.len() - from,
{
    if from >= s.len() {
        s.len() as int
    } else if p(s[from]) {
        from
    } else {
        first(s, p, from + 1)
    }
}

/// The first element of `s` with the property `p`.
pub open spec fn find<T>(s: Seq<T>, p: spec_fn(T) -> bool) -> Option<T> {
    let at = first(s, p, 0);
    if at < s.len() {
        Some(s[at])
    } else {
        None
    }
}

/// Some element of `s` has the property `p`.
pub open spec fn any<T>(s: Seq<T>, p: spec_fn(T) -> bool) -> bool {
    first(s, p, 0) < s.len()
}

pub proof fn lemma_first<T>(s: Seq<T>, p: spec_fn(T) -> bool, from: int)
    requires
        0 <= from <= s.len(),
    ensures
        from <= first(s, p, from) <= s.len(),
        first(s, p, from) < s.len() ==> p(s[first(s, p, from)]),
        forall|j: int| from <= j < first(s, p, from) ==> !p(#[trigger] s[j]),
    decreases s.len() - from,
{
    if from < s.len() && !p(s[from]) {
        lemma_first(s, p, from + 1);
    }
}

/// The first element is the one before which none matches.
pub proof fn lemma_first_is<T>(s: Seq<T>, p: spec_fn(T) -> bool, from: int, at: int)
    requires
        0 <= from <= at <= s.len(),
        at < s.len() ==> p(s[at]),
        forall|j: int| from <= j < at ==> !p(#[trigger] s[j]),
    ensures
        first(s, p, from) == at,
    decreases at - from,
{
    if from < at {
        lemma_first_is(s, p, from + 1, at);
    }
}

/// Some element matches exactly when the search finds one.
pub proof fn lemma_any<T>(s: Seq<T>, p: spec_fn(T) -> bool)
    ensures
        any(s, p) <==> exists|j: int| 0 <= j < s.len() && p(#[trigger] s[j]),
{
    lemma_first(s, p, 0);
}

/// The elements without the property `p` are those with this one.
pub open spec fn lacks<T>(p: spec_fn(T) -> bool) -> spec_fn(T) -> bool {
    |x: T| !p(x)
}

/// One element more is kept exactly when it has the property.
pub proof fn lemma_filter_step<T>(s: Seq<T>, p: spec_fn(T) -> bool, i: int)
    requires
        0 <= i < s.len(),
    ensures
        s.take(i + 1).filter(p) == if p(s[i]) {
            s.take(i).filter(p).push(s[i])
        } else {
            s.take(i).filter(p)
        },
{
    reveal(Seq::filter);
    assert(s.take(i + 1).drop_last() =~= s.take(i));
    assert(s.take(i + 1).last() == s[i]);
}

/// Nothing is left of a list none of whose elements has the property.
pub proof fn lemma_filter_none<T>(s: Seq<T>, p: spec_fn(T) -> bool)
    requires
        forall|j: int| 0 <= j < s.len() ==> !p(#[trigger] s[j]),
    ensures
        s.filter(p) == Seq::<T>::empty(),
        s.filter(lacks(p)) == s,
    decreases s.len(),
{
    reveal(Seq::filter);
    if s.len() > 0 {
        assert(!p(s[s.len() - 1]));
        lemma_filter_none(s.drop_last(), p);
        assert(s =~= s.drop_last().push(s.last()));
    }
}

/// Taking the first element with the property away takes it off the front of
/// those that have it, and leaves those that lack it.
pub proof fn lemma_filter_first<T>(s: Seq<T>, p: spec_fn(T) -> bool)
    requires
        any(s, p),
    ensures
        s.filter(p) == seq![s[first(s, p, 0)]] + s.remove(first(s, p, 0)).filter(p),
        s.filter(lacks(p)) == s.remove(first(s, p, 0)).filter(lacks(p)),
{
    lemma_first(s, p, 0);
    let at = first(s, p, 0);
    let head = s.take(at);
    let tail = s.skip(at + 1);
    let one = seq![s[at]];
    assert(s =~= head + (one + tail));
    assert(s.remove(at) =~= head + tail);
    lemma_filter_none(head, p);
    Seq::filter_distributes_over_add(head, one + tail, p);
    Seq::filter_distributes_over_add(one, tail, p);
    Seq::filter_distributes_over_add(head, tail, p);
    Seq::filter_distributes_over_add(head, one + tail, lacks(p));
    Seq::filter_distributes_over_add(one, tail, lacks(p));
    Seq::filter_distributes_over_add(head, tail, lacks(p));
    reveal_with_fuel(Seq::filter, 2);
    assert(one.drop_last() =~= Seq::empty());
    assert(one.last() == s[at] && !lacks(p)(s[at]));
    assert(one.filter(p) =~= one);
    assert(one.filter(lacks(p)) =~= Seq::empty());
    assert(s.filter(p) =~= one + s.remove(at).filter(p));
    assert(s.filter(lacks(p)) =~= s.remove(at).filter(lacks(p)));
}

/// Takes the elements with a property out of a list; both parts keep their
/// order. `f` decides the property `p`.
pub(crate) fn take_where<T, F: Fn(&T) -> bool>(
    v: &mut Vec<T>,
    f: F,
    Ghost(p): Ghost<spec_fn(T) -> bool>,
) -> (r: Vec<T>)
    requires
        forall|x: &T| call_requires(f, (x,)),
        forall|x: &T, b: bool| call_ensures(f, (x,), b) ==> b == p(*x),
    ensures
        r@ == old(v)@.filter(p),
        final(v)@ == old(v)@.filter(lacks(p)),
{
    let ghost all = v@;
    let ghost mut seen: int = 0;
    let mut taken: Vec<T> = Vec::new();
    let mut i: usize = 0;
    proof {
        reveal(Seq::filter);
        assert(all.take(0) =~= Seq::empty());
        assert(all =~= all.take(0).filter(lacks(p)) + all.skip(0));
    }
    while i < v.len()
        invariant
            0 <= seen <= all.len(),
            forall|x: &T| call_requires(f, (x,)),
            forall|x: &T, b: bool| call_ensures(f, (x,), b) ==> b == p(*x),
            i == all.take(seen).filter(lacks(p)).len(),
            v@ == all.take(seen).filter(lacks(p)) + all.skip(seen),
            taken@ == all.take(seen).filter(p),
        decreases all.len() - seen,
    {
        proof {
            reveal(Seq::filter);
            assert(all.take(seen + 1).drop_last() =~= all.take(seen));
            assert(all.take(seen + 1).last() == all[seen]);
        }
        let ghost kept = all.take(seen).filter(lacks(p));
        assert(v@[i as int] == all[seen]);
        if f(&v[i]) {
            let x = v.remove(i);
            taken.push(x);
            assert(v@ =~= kept + all.skip(seen + 1));
        } else {
            i += 1;
            assert(v@ =~= kept.push(all[seen]) + all.skip(seen + 1));
        }
        proof {
            seen = seen + 1;
        }
    }
    proof {
        assert(all.skip(seen).len() == 0);
        assert(all.take(seen) =~= all);
        assert(v@ =~= all.filter(lacks(p)));
    }
    taken
}

} // verus!
