//! Stable insertion sort, stated once over any strict order: each element
//! goes after every element it does not sort before.

use vstd::prelude::*;

verus! {

/// `s` with `x` inserted before the first element that `x` sorts before.
pub open spec fn insert_sorted<T>(s: Seq<T>, x: T, less: spec_fn(T, T) -> bool) -> Seq<T>
    decreases s.len(),
{
    if s.len() == 0 {
        seq![x]
    } else if less(x, s[0]) {
        seq![x] + s
    } else {
        seq![s[0]] + insert_sorted(s.drop_first(), x, less)
    }
}

/// The stable sort of `s` by `less`: elements are inserted in order.
pub open spec fn sort_by<T>(s: Seq<T>, less: spec_fn(T, T) -> bool) -> Seq<T>
    decreases s.len(),
{
    if s.len() == 0 {
        s
    } else {
        insert_sorted(sort_by(s.drop_last(), less), s.last(), less)
    }
}

/// Inserting at the first position whose element `x` sorts before is
/// `insert_sorted`.
pub proof fn lemma_insert_sorted_at<T>(s: Seq<T>, x: T, less: spec_fn(T, T) -> bool, p: int)
    requires
        0 <= p <= s.len(),
        forall|j: int| 0 <= j < p ==> !less(x, #[trigger] s[j]),
        p < s.len() ==> less(x, s[p]),
    ensures
        insert_sorted(s, x, less) == s.insert(p, x),
    decreases s.len(),
{
    if s.len() == 0 {
        assert(s.insert(p, x) =~= seq![x]);
    } else if p == 0 {
        assert(s.insert(0, x) =~= seq![x] + s);
    } else {
        assert(!less(x, s[0]));
        let t = s.drop_first();
        assert forall|j: int| 0 <= j < p - 1 implies !less(x, #[trigger] t[j]) by {
            assert(t[j] == s[j + 1]);
        }
        lemma_insert_sorted_at(t, x, less, p - 1);
        assert(seq![s[0]] + t.insert(p - 1, x) =~= s.insert(p, x));
    }
}

/// `sort_by` keeps every element: it is a permutation.
pub proof fn lemma_sort_by_permutes<T>(s: Seq<T>, less: spec_fn(T, T) -> bool)
    ensures
        sort_by(s, less).to_multiset() == s.to_multiset(),
    decreases s.len(),
{
    broadcast use vstd::seq_lib::group_to_multiset_ensures;
    if s.len() > 0 {
        lemma_sort_by_permutes(s.drop_last(), less);
        lemma_insert_sorted_adds(sort_by(s.drop_last(), less), s.last(), less);
        assert(s =~= s.drop_last().push(s.last()));
    }
}

/// `insert_sorted` adds exactly one element.
pub proof fn lemma_insert_sorted_adds<T>(s: Seq<T>, x: T, less: spec_fn(T, T) -> bool)
    ensures
        insert_sorted(s, x, less).to_multiset() == s.to_multiset().insert(x),
    decreases s.len(),
{
    broadcast use vstd::seq_lib::group_to_multiset_ensures;
    if s.len() == 0 {
        assert(seq![x] =~= Seq::<T>::empty().push(x));
    } else if less(x, s[0]) {
        vstd::seq_lib::lemma_multiset_commutative(seq![x], s);
        assert(seq![x] =~= Seq::<T>::empty().push(x));
    } else {
        lemma_insert_sorted_adds(s.drop_first(), x, less);
        vstd::seq_lib::lemma_multiset_commutative(seq![s[0]], insert_sorted(s.drop_first(), x, less));
        vstd::seq_lib::lemma_multiset_commutative(seq![s[0]], s.drop_first());
        assert(seq![s[0]] + s.drop_first() =~= s);
        assert(seq![s[0]] =~= Seq::<T>::empty().push(s[0]));
    }
}

} // verus!

verus! {

/// Texts ordered as `str` orders them.
pub open spec fn text_order() -> spec_fn(Seq<char>, Seq<char>) -> bool {
    |a: Seq<char>, b: Seq<char>| crate::text::text_less(a, b)
}

/// `s` with `x` added where it is not already there.
pub open spec fn insert_unique(s: Seq<Seq<char>>, x: Seq<char>) -> Seq<Seq<char>> {
    if s.contains(x) {
        s
    } else {
        insert_sorted(s, x, text_order())
    }
}

/// The distinct texts of `items`, in `str` order: what a `BTreeSet` of
/// them iterates.
pub open spec fn sorted_set(items: Seq<Seq<char>>) -> Seq<Seq<char>>
    decreases items.len(),
{
    if items.len() == 0 {
        seq![]
    } else {
        insert_unique(sorted_set(items.drop_last()), items.last())
    }
}

/// The texts of a vector of strings.
pub open spec fn string_views(v: Seq<String>) -> Seq<Seq<char>> {
    v.map_values(|s: String| s@)
}

/// The distinct strings of `items`, in `str` order.
pub fn sorted_set_of(items: Vec<String>) -> (r: Vec<String>)
    ensures
        string_views(r@) == sorted_set(string_views(items@)),
{
    let ghost all = string_views(items@);
    let ghost src = items@;
    let n = items.len();
    let mut rest = items;
    let mut out: Vec<String> = Vec::new();
    let mut i: usize = 0;
    while i < n
        invariant
            n == src.len(),
            all == string_views(src),
            i <= n,
            rest@ == src.subrange(i as int, n as int),
            string_views(out@) == sorted_set(all.subrange(0, i as int)),
        decreases n - i,
    {
        let x = rest.remove(0);
        proof {
            assert(all.subrange(0, i + 1).drop_last() =~= all.subrange(0, i as int));
            assert(x == src[i as int]);
        }
        let mut present = false;
        let mut p: usize = 0;
        while p < out.len()
            invariant
                p <= out.len(),
                !present ==> forall|j: int| 0 <= j < p ==> (#[trigger] string_views(out@)[j]) != x@,
                present ==> string_views(out@).contains(x@),
            decreases out.len() - p,
        {
            if crate::text::str_eq(out[p].as_str(), x.as_str()) {
                assert(string_views(out@)[p as int] == x@);
                present = true;
            }
            p = p + 1;
        }
        if !present {
            let mut q: usize = 0;
            while q < out.len() && !crate::text::text_less_exec(x.as_str(), out[q].as_str())
                invariant
                    q <= out.len(),
                    forall|j: int| 0 <= j < q ==> !(text_order())(x@, #[trigger] string_views(out@)[j]),
                decreases out.len() - q,
            {
                q = q + 1;
            }
            let ghost before = out@;
            proof {
                lemma_insert_sorted_at(string_views(out@), x@, text_order(), q as int);
            }
            out.insert(q, x);
            assert(string_views(out@) =~= string_views(before).insert(q as int, x@));
        }
        i = i + 1;
    }
    proof {
        assert(all.subrange(0, n as int) =~= all);
    }
    out
}

} // verus!
