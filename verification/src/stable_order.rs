//! Stable ordering by an integer key: what a stable sort returns, stated without
//! reference to any algorithm.
use vstd::prelude::*;

verus! {

/// Every element's key is at most the key of every element after it.
pub open spec fn sorted_by_key<T>(s: Seq<T>, key: spec_fn(T) -> int) -> bool {
    forall|i: int, j: int| 0 <= i <= j < s.len() ==> key(s[i]) <= key(s[j])
}

/// The predicate "has key `k`".
pub open spec fn has_key<T>(key: spec_fn(T) -> int, k: int) -> spec_fn(T) -> bool {
    |x: T| key(x) == k
}

/// For every key, `a` and `b` hold the same elements with that key, in the same order.
pub open spec fn same_order_per_key<T>(a: Seq<T>, b: Seq<T>, key: spec_fn(T) -> int) -> bool {
    forall|k: int| #[trigger] a.filter(has_key(key, k)) == b.filter(has_key(key, k))
}

/// `out` is the stable sort of `input` by `key`: sorted by key, and elements with equal
/// keys keep their relative order. These two facts determine `out` from `input`.
pub open spec fn is_stable_sort_of<T>(out: Seq<T>, input: Seq<T>, key: spec_fn(T) -> int) -> bool {
    &&& sorted_by_key(out, key)
    &&& same_order_per_key(out, input, key)
}

/// A sequence none of whose elements satisfies `pred` filters to the empty sequence.
pub proof fn lemma_filter_none<T>(s: Seq<T>, pred: spec_fn(T) -> bool)
    requires
        forall|i: int| 0 <= i < s.len() ==> !pred(s[i]),
    ensures
        s.filter(pred) == Seq::<T>::empty(),
    decreases s.len(),
{
    reveal(Seq::filter);
    if s.len() > 0 {
        lemma_filter_none(s.drop_last(), pred);
    }
}

/// Inserting `x` into a sorted sequence just after every element whose key is at most
/// the key of `x` keeps the sequence sorted, and appends `x` to the elements with its key
/// while leaving every other key's elements as they were.
pub proof fn lemma_stable_insert<T>(s: Seq<T>, pos: int, x: T, key: spec_fn(T) -> int)
    requires
        sorted_by_key(s, key),
        0 <= pos <= s.len(),
        forall|j: int| 0 <= j < pos ==> key(s[j]) <= key(x),
        forall|j: int| pos <= j < s.len() ==> key(s[j]) > key(x),
    ensures
        sorted_by_key(s.insert(pos, x), key),
        forall|k: int|
            #[trigger] s.insert(pos, x).filter(has_key(key, k)) == if k == key(x) {
                s.filter(has_key(key, k)).push(x)
            } else {
                s.filter(has_key(key, k))
            },
{
    let r = s.insert(pos, x);
    assert(r == s.take(pos) + seq![x] + s.skip(pos));
    assert(s == s.take(pos) + s.skip(pos));
    assert forall|k: int|
        #[trigger] r.filter(has_key(key, k)) == if k == key(x) {
            s.filter(has_key(key, k)).push(x)
        } else {
            s.filter(has_key(key, k))
        } by {
        let p = has_key(key, k);
        Seq::filter_distributes_over_add(s.take(pos) + seq![x], s.skip(pos), p);
        Seq::filter_distributes_over_add(s.take(pos), seq![x], p);
        Seq::filter_distributes_over_add(s.take(pos), s.skip(pos), p);
        reveal_with_fuel(Seq::filter, 2);
        assert(seq![x].drop_last() =~= Seq::<T>::empty());
        if k == key(x) {
            assert forall|i: int| 0 <= i < s.skip(pos).len() implies !p(s.skip(pos)[i]) by {
                assert(s.skip(pos)[i] == s[pos + i]);
            }
            lemma_filter_none(s.skip(pos), p);
            assert(s.take(pos).filter(p) + seq![x] == s.take(pos).filter(p).push(x));
        } else {
            assert(seq![x].filter(p) =~= Seq::<T>::empty());
        }
    }
}

} // verus!
