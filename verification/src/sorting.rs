//! Stable sorting by insertion, and the laws that make it a sort.
use vstd::prelude::*;

verus! {

/// Where `x` goes in `s`: behind the last element that `x` does not come before.
pub open spec fn insert_position<T>(s: Seq<T>, x: T, before: spec_fn(T, T) -> bool) -> int
    decreases s.len(),
{
    if s.len() == 0 {
        0
    } else if before(x, s.last()) {
        insert_position(s.drop_last(), x, before)
    } else {
        s.len() as int
    }
}

/// `s` in the order of `before`; elements of which neither comes before the
/// other keep the order in which they stand in `s`.
pub open spec fn stable_sort<T>(s: Seq<T>, before: spec_fn(T, T) -> bool) -> Seq<T>
    decreases s.len(),
{
    if s.len() == 0 {
        s
    } else {
        let rest = stable_sort(s.drop_last(), before);
        rest.insert(insert_position(rest, s.last(), before), s.last())
    }
}

/// No element comes before one that stands in front of it.
pub open spec fn in_order<T>(s: Seq<T>, before: spec_fn(T, T) -> bool) -> bool {
    forall|i: int, j: int| 0 <= i < j < s.len() ==> !before(#[trigger] s[j], #[trigger] s[i])
}

/// `before` is the strict part of a total preorder.
pub open spec fn is_order<T>(before: spec_fn(T, T) -> bool) -> bool {
    &&& forall|x: T, y: T| #[trigger] before(x, y) ==> !before(y, x)
    &&& forall|x: T, y: T, z: T|
        !(#[trigger] before(y, x)) && !(#[trigger] before(z, y)) ==> !before(z, x)
}

/// The insertion position lies within the sequence.
pub proof fn insert_position_in_range<T>(s: Seq<T>, x: T, before: spec_fn(T, T) -> bool)
    ensures
        0 <= insert_position(s, x, before) <= s.len(),
        forall|k: int| insert_position(s, x, before) <= k < s.len() ==> before(x, #[trigger] s[k]),
        insert_position(s, x, before) > 0 ==> !before(
            x,
            s[insert_position(s, x, before) - 1],
        ),
    decreases s.len(),
{
    if s.len() > 0 && before(x, s.last()) {
        insert_position_in_range(s.drop_last(), x, before);
        let p = insert_position(s.drop_last(), x, before);
        assert forall|k: int| p <= k < s.len() implies before(x, #[trigger] s[k]) by {
            if k < s.len() - 1 {
                assert(s.drop_last()[k] == s[k]);
            }
        }
    }
}

/// Sorting keeps the number of elements.
pub proof fn stable_sort_keeps_length<T>(s: Seq<T>, before: spec_fn(T, T) -> bool)
    ensures
        stable_sort(s, before).len() == s.len(),
    decreases s.len(),
{
    if s.len() > 0 {
        stable_sort_keeps_length(s.drop_last(), before);
        insert_position_in_range(stable_sort(s.drop_last(), before), s.last(), before);
    }
}

/// Sorting yields a sequence in order.
pub proof fn stable_sort_is_in_order<T>(s: Seq<T>, before: spec_fn(T, T) -> bool)
    requires
        is_order(before),
    ensures
        in_order(stable_sort(s, before), before),
    decreases s.len(),
{
    if s.len() > 0 {
        let rest = stable_sort(s.drop_last(), before);
        let x = s.last();
        let p = insert_position(rest, x, before);
        stable_sort_is_in_order(s.drop_last(), before);
        insert_position_in_range(rest, x, before);
        let r = rest.insert(p, x);
        assert forall|i: int, j: int| 0 <= i < j < r.len() implies !before(
            #[trigger] r[j],
            #[trigger] r[i],
        ) by {
            if j == p {
                assert(r[i] == rest[i]);
                assert(!before(x, rest[p - 1]));
                if i < p - 1 {
                    assert(!before(rest[p - 1], rest[i]));
                }
            } else if i == p {
                assert(r[j] == rest[j - 1]);
                assert(before(x, rest[j - 1]));
            } else {
                let a = if i < p { i } else { i - 1 };
                let b = if j < p { j } else { j - 1 };
                assert(r[i] == rest[a]);
                assert(r[j] == rest[b]);
            }
        }
    }
}

/// Sorting neither adds nor loses an element.
pub proof fn stable_sort_is_permutation<T>(s: Seq<T>, before: spec_fn(T, T) -> bool)
    ensures
        stable_sort(s, before).to_multiset() == s.to_multiset(),
    decreases s.len(),
{
    broadcast use vstd::seq_lib::group_to_multiset_ensures;

    if s.len() > 0 {
        let rest = stable_sort(s.drop_last(), before);
        stable_sort_is_permutation(s.drop_last(), before);
        insert_position_in_range(rest, s.last(), before);
        let p = insert_position(rest, s.last(), before);
        vstd::seq_lib::to_multiset_insert(rest, p, s.last());
        assert(s =~= s.drop_last().push(s.last()));
        assert(s.to_multiset() =~= s.drop_last().to_multiset().insert(s.last()));
    }
}

proof fn filter_insert<T>(s: Seq<T>, p: int, x: T, keep: spec_fn(T) -> bool)
    requires
        0 <= p <= s.len(),
        forall|k: int| p <= k < s.len() ==> !keep(#[trigger] s[k]),
    ensures
        s.insert(p, x).filter(keep) == if keep(x) {
            s.filter(keep).push(x)
        } else {
            s.filter(keep)
        },
    decreases s.len(),
{
    reveal(Seq::filter);
    let t = s.insert(p, x);
    if p == s.len() {
        assert(t.drop_last() =~= s);
        assert(t.last() == x);
    } else {
        assert(t.last() == s.last());
        assert(!keep(s[s.len() - 1]));
        assert(t.drop_last() =~= s.drop_last().insert(p, x));
        assert forall|k: int| p <= k < s.drop_last().len() implies !keep(
            #[trigger] s.drop_last()[k],
        ) by {
            assert(s.drop_last()[k] == s[k]);
        }
        filter_insert(s.drop_last(), p, x, keep);
    }
}

proof fn filter_insert_other<T>(s: Seq<T>, p: int, x: T, keep: spec_fn(T) -> bool)
    requires
        0 <= p <= s.len(),
        !keep(x),
    ensures
        s.insert(p, x).filter(keep) == s.filter(keep),
    decreases s.len(),
{
    reveal(Seq::filter);
    let t = s.insert(p, x);
    if p == s.len() {
        assert(t.drop_last() =~= s);
        assert(t.last() == x);
    } else {
        assert(t.last() == s.last());
        assert(t.drop_last() =~= s.drop_last().insert(p, x));
        filter_insert_other(s.drop_last(), p, x, keep);
    }
}

/// Sorting is stable: elements of a class in which none comes before another
/// stand in the result in the order in which they stood before.
pub proof fn stable_sort_is_stable<T>(
    s: Seq<T>,
    before: spec_fn(T, T) -> bool,
    class: spec_fn(T) -> bool,
)
    requires
        forall|x: T, y: T| class(x) && class(y) ==> !(#[trigger] before(x, y)),
    ensures
        stable_sort(s, before).filter(class) == s.filter(class),
    decreases s.len(),
{
    if s.len() > 0 {
        reveal(Seq::filter);
        let rest = stable_sort(s.drop_last(), before);
        let x = s.last();
        let p = insert_position(rest, x, before);
        stable_sort_is_stable(s.drop_last(), before, class);
        insert_position_in_range(rest, x, before);
        if class(x) {
            assert forall|k: int| p <= k < rest.len() implies !class(#[trigger] rest[k]) by {
                assert(before(x, rest[k]));
            }
            filter_insert(rest, p, x, class);
        } else {
            filter_insert_other(rest, p, x, class);
        }
    }
}

proof fn insert_filters<T>(
    s: Seq<T>,
    x: T,
    before: spec_fn(T, T) -> bool,
    keep: spec_fn(T) -> bool,
)
    requires
        is_order(before),
        in_order(s, before),
        keep(x),
    ensures
        s.insert(insert_position(s, x, before), x).filter(keep) == s.filter(keep).insert(
            insert_position(s.filter(keep), x, before),
            x,
        ),
    decreases s.len(),
{
    reveal(Seq::filter);
    let p = insert_position(s, x, before);
    insert_position_in_range(s, x, before);
    let t = s.insert(p, x);
    let kept = s.filter(keep);
    if s.len() == 0 {
        assert(t.drop_last() =~= s);
        assert(t.filter(keep) =~= kept.insert(0, x));
    } else if before(x, s.last()) {
        let d = s.drop_last();
        assert forall|i: int, j: int| 0 <= i < j < d.len() implies !before(
            #[trigger] d[j],
            #[trigger] d[i],
        ) by {
            assert(d[i] == s[i] && d[j] == s[j]);
        }
        insert_filters(d, x, before, keep);
        insert_position_in_range(d, x, before);
        insert_position_in_range(d.filter(keep), x, before);
        assert(t.drop_last() =~= d.insert(p, x));
        assert(t.last() == s.last());
        if keep(s.last()) {
            assert(kept.drop_last() =~= d.filter(keep));
            let q = insert_position(d.filter(keep), x, before);
            assert(t.filter(keep) =~= kept.insert(q, x));
        }
    } else {
        assert(t.drop_last() =~= s);
        assert(t.last() == x);
        if kept.len() > 0 {
            let y = kept.last();
            assert(kept.contains(y)) by {
                assert(kept[kept.len() - 1] == y);
            }
            s.lemma_filter_contains_rev(keep, y);
            let k = choose|k: int| 0 <= k < s.len() && s[k] == y;
            if k < s.len() - 1 {
                assert(!before(s[s.len() - 1], s[k]));
            }
            assert(!before(x, y));
        }
        assert(kept.insert(kept.len() as int, x) =~= kept.push(x));
    }
}

/// It makes no difference whether elements are left out before sorting or after
/// it.
pub proof fn sorting_commutes_with_filtering<T>(
    s: Seq<T>,
    before: spec_fn(T, T) -> bool,
    keep: spec_fn(T) -> bool,
)
    requires
        is_order(before),
    ensures
        stable_sort(s.filter(keep), before) == stable_sort(s, before).filter(keep),
    decreases s.len(),
{
    reveal(Seq::filter);
    if s.len() > 0 {
        let d = s.drop_last();
        let rest = stable_sort(d, before);
        let x = s.last();
        sorting_commutes_with_filtering(d, before, keep);
        stable_sort_is_in_order(d, before);
        insert_position_in_range(rest, x, before);
        if keep(x) {
            insert_filters(rest, x, before, keep);
            assert(s.filter(keep).drop_last() =~= d.filter(keep));
        } else {
            filter_insert_other(rest, insert_position(rest, x, before), x, keep);
        }
    }
}

/// Puts the numbers in ascending order.
pub fn sort_numbers(v: &Vec<u64>) -> (r: Vec<u64>)
    ensures
        r@ == stable_sort(v@, |a: u64, b: u64| a < b),
{
    let ghost before = |a: u64, b: u64| a < b;
    let mut r: Vec<u64> = Vec::new();
    let mut i: usize = 0;
    proof {
        assert(v@.take(0) =~= Seq::<u64>::empty());
    }
    while i < v.len()
        invariant
            i <= v.len(),
            before == (|a: u64, b: u64| a < b),
            r@ == stable_sort(v@.take(i as int), before),
            r.len() == i,
        decreases v.len() - i,
    {
        let x: u64 = v[i];
        let mut p: usize = r.len();
        proof {
            assert(r@.take(r.len() as int) =~= r@);
        }
        while p > 0 && x < r[p - 1]
            invariant
                p <= r.len(),
                before == (|a: u64, b: u64| a < b),
                insert_position(r@, x, before) == insert_position(r@.take(p as int), x, before),
            decreases p,
        {
            proof {
                assert(r@.take(p as int).drop_last() =~= r@.take(p - 1));
                assert(r@.take(p as int).last() == r@[p - 1]);
            }
            p = p - 1;
        }
        proof {
            if p > 0 {
                assert(r@.take(p as int).last() == r@[p - 1]);
            }
            assert(p == insert_position(r@, x, before));
            assert(v@.take(i + 1).drop_last() =~= v@.take(i as int));
            assert(v@.take(i + 1).last() == x);
        }
        r.insert(p, x);
        i = i + 1;
    }
    proof {
        assert(v@.take(i as int) =~= v@);
    }
    r
}

} // verus!
