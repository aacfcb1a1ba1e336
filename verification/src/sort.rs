//! Stable ordering of records by an integer key, and sorting of texts.
use vstd::prelude::*;
use crate::text::{less_text, same_text, text_lt, lemma_text_lt_total, lemma_text_lt_transitive};

verus! {

/// Whether position `a` comes before position `b` when ordering by `keys`:
/// by key (ascending, or descending when asked), ties by position.
pub open spec fn comes_before(keys: Seq<i64>, descending: bool, a: int, b: int) -> bool {
    if descending {
        keys[a] > keys[b] || (keys[a] == keys[b] && a < b)
    } else {
        keys[a] < keys[b] || (keys[a] == keys[b] && a < b)
    }
}

/// Whether position `x` appears in `order`.
pub open spec fn listed(order: Seq<usize>, x: int) -> bool {
    exists|i: int| 0 <= i < order.len() && #[trigger] order[i] == x
}

/// Whether `order` lists every position of `keys` once, in stable key order.
pub open spec fn is_stable_order(keys: Seq<i64>, descending: bool, order: Seq<usize>) -> bool {
    &&& order.len() == keys.len()
    &&& forall|i: int| 0 <= i < order.len() ==> #[trigger] order[i] < keys.len()
    &&& forall|i: int, j: int| 0 <= i < j < order.len() ==> comes_before(keys, descending, #[trigger] order[i] as int, #[trigger] order[j] as int)
    &&& forall|x: int| 0 <= x < keys.len() ==> #[trigger] listed(order, x)
}

/// Whether `order` lists the positions below `n`, each once, in stable key order.
spec fn partial_order_ok(keys: Seq<i64>, descending: bool, order: Seq<usize>, n: int) -> bool {
    &&& order.len() == n
    &&& forall|i: int| 0 <= i < order.len() ==> #[trigger] order[i] < n
    &&& forall|i: int, j: int| 0 <= i < j < order.len() ==> comes_before(keys, descending, #[trigger] order[i] as int, #[trigger] order[j] as int)
    &&& forall|x: int| 0 <= x < n ==> #[trigger] listed(order, x)
}

/// Whether a key `a` already placed stays before a later key `b`.
fn not_after(a: i64, b: i64, descending: bool) -> (r: bool)
    ensures
        r == (if descending { a >= b } else { a <= b }),
{
    if descending { a >= b } else { a <= b }
}

/// The positions of `keys` in stable order of their keys (what a stable
/// `sort_by` on the key yields).
pub fn stable_order(keys: &Vec<i64>, descending: bool) -> (order: Vec<usize>)
    ensures
        is_stable_order(keys@, descending, order@),
{
    let mut order: Vec<usize> = Vec::new();
    let mut n: usize = 0;
    while n < keys.len()
        invariant
            n <= keys@.len(),
            partial_order_ok(keys@, descending, order@, n as int),
        decreases keys@.len() - n,
    {
        let k = keys[n];
        let mut p: usize = 0;
        while p < order.len() && not_after(keys[order[p]], k, descending)
            invariant
                p <= order@.len(),
                n < keys@.len(),
                k == keys@[n as int],
                partial_order_ok(keys@, descending, order@, n as int),
                forall|i: int| 0 <= i < p ==> comes_before(keys@, descending, #[trigger] order@[i] as int, n as int),
            decreases order@.len() - p,
        {
            p = p + 1;
        }
        proof {
            assert forall|i: int| p <= i < order@.len() implies comes_before(keys@, descending, n as int, #[trigger] order@[i] as int) by {
                let q = order@[p as int];
                assert(comes_before(keys@, descending, q as int, order@[i] as int) || i == p);
                if descending {
                    assert(keys@[q as int] < k);
                } else {
                    assert(keys@[q as int] > k);
                }
            }
        }
        let ghost old_order = order@;
        order.insert(p, n);
        proof {
            assert forall|i: int, j: int| 0 <= i < j < order@.len() implies comes_before(keys@, descending, #[trigger] order@[i] as int, #[trigger] order@[j] as int) by {
                if i < p && j < p {
                    assert(order@[i] == old_order[i] && order@[j] == old_order[j]);
                } else if i < p && j == p {
                    assert(order@[i] == old_order[i]);
                } else if i < p && j > p {
                    assert(order@[i] == old_order[i] && order@[j] == old_order[j - 1]);
                } else if i == p {
                    assert(order@[j] == old_order[j - 1]);
                } else {
                    assert(order@[i] == old_order[i - 1] && order@[j] == old_order[j - 1]);
                }
            }
            assert forall|x: int| 0 <= x < n + 1 implies #[trigger] listed(order@, x) by {
                if x == n {
                    assert(order@[p as int] == x);
                } else {
                    assert(listed(old_order, x));
                    let i0 = choose|i: int| 0 <= i < old_order.len() && #[trigger] old_order[i] == x;
                    if i0 < p {
                        assert(order@[i0] == x);
                    } else {
                        assert(order@[i0 + 1] == x);
                    }
                }
            }
            assert forall|i: int| 0 <= i < order@.len() implies #[trigger] order@[i] < n + 1 by {
                if i < p {
                    assert(order@[i] == old_order[i]);
                } else if i > p {
                    assert(order@[i] == old_order[i - 1]);
                }
            }
        }
        n = n + 1;
    }
    order
}


/// Whether the texts are in strictly ascending order (hence distinct).
pub open spec fn ascending(s: Seq<Seq<char>>) -> bool {
    forall|i: int, j: int| 0 <= i < j < s.len() ==> text_lt(#[trigger] s[i], #[trigger] s[j])
}

/// The distinct texts, in ascending order (`sort` then `dedup`).
pub fn sorted_distinct(items: Vec<String>) -> (r: Vec<String>)
    ensures
        ascending(r@.map_values(|s: String| s@)),
        r@.map_values(|s: String| s@).to_set() == items@.map_values(|s: String| s@).to_set(),
{
    let ghost iv = items@.map_values(|s: String| s@);
    let mut r: Vec<String> = Vec::new();
    let n = items.len();
    let mut i: usize = 0;
    while i < n
        invariant
            n == items@.len(),
            iv == items@.map_values(|s: String| s@),
            i <= n,
            ascending(r@.map_values(|s: String| s@)),
            r@.map_values(|s: String| s@).to_set() == iv.subrange(0, i as int).to_set(),
        decreases n - i,
    {
        let ghost rv = r@.map_values(|s: String| s@);
        let x = items[i].as_str();
        assert(iv[i as int] == x@);
        let mut k: usize = 0;
        while k < r.len() && less_text(r[k].as_str(), x)
            invariant
                k <= r@.len(),
                rv == r@.map_values(|s: String| s@),
                forall|q: int| 0 <= q < k ==> text_lt(#[trigger] rv[q], x@),
            decreases r@.len() - k,
        {
            assert(rv[k as int] == r@[k as int]@);
            k = k + 1;
        }
        let present = k < r.len() && same_text(r[k].as_str(), x);
        proof {
            assert(iv.subrange(0, i + 1) =~= iv.subrange(0, i as int).push(x@));
            iv.subrange(0, i as int).lemma_push_to_set_commute(x@);
        }
        if !present {
            proof {
                if k < r@.len() {
                    assert(rv[k as int] == r@[k as int]@);
                    lemma_text_lt_total(rv[k as int], x@);
                    assert(text_lt(x@, rv[k as int]));
                }
            }
            r.insert(k, String::from_str(x));
            proof {
                let nv = r@.map_values(|s: String| s@);
                assert(nv =~= rv.insert(k as int, x@));
                assert forall|a: int, b: int| 0 <= a < b < nv.len() implies text_lt(#[trigger] nv[a], #[trigger] nv[b]) by {
                    if a == k && b > k + 1 {
                        lemma_text_lt_transitive(x@, rv[k as int], rv[b - 1]);
                    }
                }
                assert forall|t: Seq<char>| #[trigger] nv.contains(t) implies rv.to_set().insert(x@).contains(t) by {
                    let w = choose|w: int| 0 <= w < nv.len() && #[trigger] nv[w] == t;
                    if w < k {
                        assert(rv[w] == t);
                    } else if w > k {
                        assert(rv[w - 1] == t);
                    }
                }
                assert forall|t: Seq<char>| #[trigger] rv.contains(t) implies nv.contains(t) by {
                    let u = choose|u: int| 0 <= u < rv.len() && #[trigger] rv[u] == t;
                    if u < k {
                        assert(nv[u] == t);
                    } else {
                        assert(nv[u + 1] == t);
                    }
                }
                assert(nv[k as int] == x@);
                assert(nv.to_set() =~= rv.to_set().insert(x@));
            }
        } else {
            proof {
                assert(rv[k as int] == r@[k as int]@);
                assert(rv[k as int] == x@);
                assert(rv.to_set().insert(x@) =~= rv.to_set());
            }
        }
        i = i + 1;
    }
    proof {
        assert(iv.subrange(0, n as int) =~= iv);
    }
    r
}


/// Whether position `a` comes before position `b` when ordering by the text
/// keys `keys`: by key, ties by position.
pub open spec fn text_before(keys: Seq<Seq<char>>, a: int, b: int) -> bool {
    text_lt(keys[a], keys[b]) || (keys[a] == keys[b] && a < b)
}

/// Whether `order` lists every position of `keys` once, in stable key order.
pub open spec fn is_text_order(keys: Seq<Seq<char>>, order: Seq<usize>) -> bool {
    &&& order.len() == keys.len()
    &&& forall|i: int| 0 <= i < order.len() ==> #[trigger] order[i] < keys.len()
    &&& forall|i: int, j: int| 0 <= i < j < order.len() ==> text_before(keys, #[trigger] order[i] as int, #[trigger] order[j] as int)
    &&& forall|x: int| 0 <= x < keys.len() ==> #[trigger] listed(order, x)
}

spec fn partial_text_order(keys: Seq<Seq<char>>, order: Seq<usize>, n: int) -> bool {
    &&& order.len() == n
    &&& forall|i: int| 0 <= i < order.len() ==> #[trigger] order[i] < n
    &&& forall|i: int, j: int| 0 <= i < j < order.len() ==> text_before(keys, #[trigger] order[i] as int, #[trigger] order[j] as int)
    &&& forall|x: int| 0 <= x < n ==> #[trigger] listed(order, x)
}

proof fn lemma_text_before_key(keys: Seq<Seq<char>>, a: int, b: int, k: Seq<char>)
    requires
        text_before(keys, a, b),
        text_lt(k, keys[a]),
    ensures
        text_lt(k, keys[b]),
{
    if text_lt(keys[a], keys[b]) {
        lemma_text_lt_transitive(k, keys[a], keys[b]);
    }
}

/// The positions of `keys` in ascending order of their keys, ties by
/// position (what a stable sort by key yields).
pub fn text_order(keys: &Vec<String>) -> (order: Vec<usize>)
    ensures
        is_text_order(keys@.map_values(|s: String| s@), order@),
{
    let ghost kv = keys@.map_values(|s: String| s@);
    let mut order: Vec<usize> = Vec::new();
    let mut n: usize = 0;
    while n < keys.len()
        invariant
            n <= keys@.len(),
            kv == keys@.map_values(|s: String| s@),
            partial_text_order(kv, order@, n as int),
        decreases keys@.len() - n,
    {
        let k = keys[n].as_str();
        assert(kv[n as int] == k@);
        let mut p: usize = 0;
        while p < order.len() && !less_text(k, keys[order[p]].as_str())
            invariant
                p <= order@.len(),
                n < keys@.len(),
                kv == keys@.map_values(|s: String| s@),
                k@ == kv[n as int],
                partial_text_order(kv, order@, n as int),
                forall|i: int| 0 <= i < p ==> text_before(kv, #[trigger] order@[i] as int, n as int),
            decreases order@.len() - p,
        {
            let q = order[p];
            proof {
                assert(kv[q as int] == keys@[q as int]@);
                lemma_text_lt_total(k@, kv[q as int]);
            }
            p = p + 1;
        }
        proof {
            if p < order@.len() {
                assert(kv[order@[p as int] as int] == keys@[order@[p as int] as int]@);
                assert(text_lt(k@, kv[order@[p as int] as int]));
            }
            assert forall|i: int| p <= i < order@.len() implies text_before(kv, n as int, #[trigger] order@[i] as int) by {
                let q = order@[p as int];
                if i > p {
                    lemma_text_before_key(kv, q as int, order@[i] as int, k@);
                }
            }
        }
        let ghost old_order = order@;
        order.insert(p, n);
        proof {
            assert forall|i: int, j: int| 0 <= i < j < order@.len() implies text_before(kv, #[trigger] order@[i] as int, #[trigger] order@[j] as int) by {
                if i < p && j < p {
                    assert(order@[i] == old_order[i] && order@[j] == old_order[j]);
                } else if i < p && j == p {
                    assert(order@[i] == old_order[i]);
                } else if i < p && j > p {
                    assert(order@[i] == old_order[i] && order@[j] == old_order[j - 1]);
                } else if i == p {
                    assert(order@[j] == old_order[j - 1]);
                } else {
                    assert(order@[i] == old_order[i - 1] && order@[j] == old_order[j - 1]);
                }
            }
            assert forall|x: int| 0 <= x < n + 1 implies #[trigger] listed(order@, x) by {
                if x == n {
                    assert(order@[p as int] == x);
                } else {
                    assert(listed(old_order, x));
                    let i0 = choose|i: int| 0 <= i < old_order.len() && #[trigger] old_order[i] == x;
                    if i0 < p {
                        assert(order@[i0] == x);
                    } else {
                        assert(order@[i0 + 1] == x);
                    }
                }
            }
            assert forall|i: int| 0 <= i < order@.len() implies #[trigger] order@[i] < n + 1 by {
                if i < p {
                    assert(order@[i] == old_order[i]);
                } else if i > p {
                    assert(order@[i] == old_order[i - 1]);
                }
            }
        }
        n = n + 1;
    }
    order
}

} // verus!
