//! What setting a configuration value keeps: every value along a path that
//! leaves the path set.
use vstd::prelude::*;
use crate::json::{member_of, same, Json};
use crate::tools::config::{lemma_first_key, lemma_member_first, object_set, set_member, set_result, value_at, writable};

verus! {

/// Whether two optional values hold the same JSON, or are both absent.
pub open spec fn opt_same(a: Option<Json>, b: Option<Json>) -> bool {
    match (a, b) {
        (Some(x), Some(y)) => same(x, y),
        (None, None) => true,
        _ => false,
    }
}

/// Whether the path `q` leaves the path `parts` somewhere: neither is a
/// prefix of the other.
pub open spec fn diverges(q: Seq<Seq<char>>, parts: Seq<Seq<char>>) -> bool {
    exists|i: int| 0 <= i < q.len() && i < parts.len() && #[trigger] q[i] != parts[i]
}

proof fn lemma_member_none(s: Seq<(String, Json)>, k: Seq<char>)
    requires
        forall|i: int| 0 <= i < s.len() ==> (#[trigger] s[i]).0@ != k,
    ensures
        member_of(s, k) is None,
    decreases s.len(),
{
    if s.len() > 0 {
        let t = s.drop_first();
        assert forall|i: int| 0 <= i < t.len() implies (#[trigger] t[i]).0@ != k by {
            assert(t[i] == s[i + 1]);
        }
        lemma_member_none(t, k);
    }
}

/// Values holding the same JSON hold the same JSON along any path.
pub proof fn lemma_value_at_same(a: Json, b: Json, q: Seq<Seq<char>>)
    requires
        same(a, b),
    ensures
        opt_same(value_at(a, q), value_at(b, q)),
    decreases q.len(),
{
    if q.len() > 0 {
        let k = q[0];
        match a {
            Json::Object(x) => {
                let y = b->Object_0;
                if exists|i: int| 0 <= i < x@.len() && #[trigger] x@[i].0@ == k {
                    let j = lemma_first_key(x@, k, x@.len() as int);
                    lemma_member_first(x@, k, j);
                    assert forall|i: int| 0 <= i < j implies (#[trigger] y@[i]).0@ != k by {
                        assert(x@[i].0@ == y@[i].0@);
                    }
                    assert(y@[j].0@ == k);
                    lemma_member_first(y@, k, j);
                    lemma_value_at_same(x@[j].1, y@[j].1, q.drop_first());
                } else {
                    lemma_member_none(x@, k);
                    assert forall|i: int| 0 <= i < y@.len() implies (#[trigger] y@[i]).0@ != k by {
                        assert(x@[i].0@ == y@[i].0@);
                    }
                    lemma_member_none(y@, k);
                }
            },
            _ => {
                assert(!(b is Object));
            },
        }
    } else {
        assert(same(a, b));
    }
}

/// A value built on nothing along a path holds nothing along a path that
/// leaves it.
proof fn lemma_fresh_elsewhere(r: Json, parts: Seq<Seq<char>>, new: Json, q: Seq<Seq<char>>)
    requires
        parts.len() >= 1,
        set_result(r, None, parts, new),
        diverges(q, parts),
    ensures
        value_at(r, q) is None,
    decreases parts.len(),
{
    let ro = r->Object_0;
    let d = choose|i: int| 0 <= i < q.len() && i < parts.len() && #[trigger] q[i] != parts[i];
    if q[0] != parts[0] {
        assert forall|i: int| 0 <= i < ro@.len() implies (#[trigger] ro@[i]).0@ != q[0] by {}
        lemma_member_none(ro@, q[0]);
    } else {
        lemma_member_first(ro@, q[0], 0);
        let rest = parts.drop_first();
        let qr = q.drop_first();
        assert(qr[d - 1] != rest[d - 1]);
        assert(diverges(qr, rest));
        lemma_fresh_elsewhere(ro@[0].1, rest, new, qr);
    }
}

/// Setting a value at a path keeps what lies along every path that leaves
/// it: after a `set` at the parts of a key into a configuration, the value
/// along any path that is neither a prefix nor an extension of those parts
/// holds the same JSON as before (or stays absent), whenever the path is
/// writable.
pub proof fn lemma_set_keeps_other_paths(r: Json, v: Json, parts: Seq<Seq<char>>, new: Json, q: Seq<Seq<char>>)
    requires
        parts.len() >= 1,
        writable(Some(v), parts),
        set_result(r, Some(v), parts, new),
        diverges(q, parts),
    ensures
        opt_same(value_at(r, q), value_at(v, q)),
    decreases parts.len(),
{
    let k = parts[0];
    let rest = parts.drop_first();
    let ro = r->Object_0;
    let vo = v->Object_0;
    assert(object_set(ro@, vo@, parts, new));
    let d = choose|i: int| 0 <= i < q.len() && i < parts.len() && #[trigger] q[i] != parts[i];
    let k0 = q[0];
    let has = exists|i: int| 0 <= i < vo@.len() && #[trigger] vo@[i].0@ == k;
    if k0 != k {
        if exists|i: int| 0 <= i < vo@.len() && #[trigger] vo@[i].0@ == k0 {
            let j = lemma_first_key(vo@, k0, vo@.len() as int);
            lemma_member_first(vo@, k0, j);
            assert forall|i: int| 0 <= i < j implies (#[trigger] ro@[i]).0@ != k0 by {
                assert(ro@[i].0@ == vo@[i].0@);
            }
            assert(ro@[j].0@ == k0);
            lemma_member_first(ro@, k0, j);
            assert(same(ro@[j].1, vo@[j].1));
            lemma_value_at_same(ro@[j].1, vo@[j].1, q.drop_first());
        } else {
            lemma_member_none(vo@, k0);
            assert forall|i: int| 0 <= i < ro@.len() implies (#[trigger] ro@[i]).0@ != k0 by {
                if i < vo@.len() {
                    assert(ro@[i].0@ == vo@[i].0@);
                } else {
                    assert(!has);
                    assert(i == ro@.len() - 1);
                }
            }
            lemma_member_none(ro@, k0);
        }
    } else {
        let qr = q.drop_first();
        assert(qr[d - 1] != rest[d - 1]);
        assert(diverges(qr, rest));
        assert(rest.len() >= 1);
        if has {
            let j = lemma_first_key(vo@, k, vo@.len() as int);
            lemma_member_first(vo@, k, j);
            assert forall|i: int| 0 <= i < j implies (#[trigger] ro@[i]).0@ != k by {
                assert(ro@[i].0@ == vo@[i].0@);
            }
            assert(ro@[j].0@ == k);
            lemma_member_first(ro@, k, j);
            assert(writable(Some(vo@[j].1), rest));
            lemma_set_keeps_other_paths(ro@[j].1, vo@[j].1, rest, new, qr);
        } else {
            lemma_member_none(vo@, k);
            let last = ro@.len() - 1;
            assert forall|i: int| 0 <= i < last implies (#[trigger] ro@[i]).0@ != k by {
                assert(ro@[i].0@ == vo@[i].0@);
            }
            lemma_member_first(ro@, k, last);
            lemma_fresh_elsewhere(ro@[last].1, rest, new, qr);
        }
    }
}

} // verus!
