use vstd::prelude::*;

verus! {

/// `i` is the first position of `s` whose row satisfies `p`.
pub open spec fn is_first<T>(s: Seq<T>, p: spec_fn(T) -> bool, i: int) -> bool {
    &&& 0 <= i < s.len()
    &&& p(s[i])
    &&& forall|j: int| 0 <= j < i ==> !p(#[trigger] s[j])
}

/// The first position of `s` whose row satisfies `p`, if any.
pub open spec fn first_where<T>(s: Seq<T>, p: spec_fn(T) -> bool) -> Option<int> {
    if exists|i: int| is_first(s, p, i) {
        Some(choose|i: int| is_first(s, p, i))
    } else {
        None
    }
}

pub proof fn lemma_first_where_found<T>(s: Seq<T>, p: spec_fn(T) -> bool, i: int)
    requires
        is_first(s, p, i),
    ensures
        first_where(s, p) == Some(i),
{
    let k = choose|k: int| is_first(s, p, k);
    assert(is_first(s, p, k));
    if k < i {
        assert(!p(s[k]));
    } else if k > i {
        assert(!p(s[i]));
    }
}

pub proof fn lemma_first_where_absent<T>(s: Seq<T>, p: spec_fn(T) -> bool)
    requires
        forall|j: int| 0 <= j < s.len() ==> !p(#[trigger] s[j]),
    ensures
        first_where(s, p) is None,
{
    if exists|i: int| is_first(s, p, i) {
        let k = choose|k: int| is_first(s, p, k);
        assert(p(s[k]));
    }
}

/// Where some row satisfies `p`, a first one does.
pub proof fn lemma_some_first<T>(s: Seq<T>, p: spec_fn(T) -> bool, j: int)
    requires
        0 <= j < s.len(),
        p(s[j]),
    ensures
        exists|k: int| is_first(s, p, k),
    decreases j,
{
    if forall|q: int| 0 <= q < j ==> !p(#[trigger] s[q]) {
        assert(is_first(s, p, j));
    } else {
        let q = choose|q: int| 0 <= q < j && p(#[trigger] s[q]);
        lemma_some_first(s, p, q);
    }
}

/// Replacing a row by one that `p` judges alike leaves the first match where it was.
pub proof fn lemma_first_where_update<T>(s: Seq<T>, p: spec_fn(T) -> bool, i: int, x: T)
    requires
        0 <= i < s.len(),
        p(x) == p(s[i]),
    ensures
        first_where(s.update(i, x), p) == first_where(s, p),
{
    let t = s.update(i, x);
    assert(t.len() == s.len());
    assert forall|j: int| 0 <= j < t.len() implies p(#[trigger] t[j]) == p(s[j]) by {}
    if exists|k: int| is_first(s, p, k) {
        let k = choose|k: int| is_first(s, p, k);
        assert(is_first(t, p, k)) by {
            assert(p(t[k]) == p(s[k]));
            assert forall|j: int| 0 <= j < k implies !p(#[trigger] t[j]) by {
                assert(p(t[j]) == p(s[j]));
                assert(!p(s[j]));
            }
        }
        lemma_first_where_found(s, p, k);
        lemma_first_where_found(t, p, k);
    } else {
        assert forall|j: int| 0 <= j < t.len() implies !p(#[trigger] t[j]) by {
            assert(p(t[j]) == p(s[j]));
            if p(s[j]) {
                lemma_some_first(s, p, j);
            }
        }
        assert forall|j: int| 0 <= j < s.len() implies !p(#[trigger] s[j]) by {
            if p(s[j]) {
                lemma_some_first(s, p, j);
            }
        }
        lemma_first_where_absent(t, p);
        lemma_first_where_absent(s, p);
    }
}

} // verus!
