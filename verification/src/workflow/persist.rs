//! How workflows and execution records are laid out in the key-value store:
//! their keys, the per-workflow index of executions, and which records are
//! returned first or cleaned up.
use vstd::prelude::*;
use crate::sort::{is_stable_order, stable_order};
use crate::text::{cat, owned, starts_with_text};
use crate::workflow::templates::texts;

verus! {

/// The key under which a workflow is stored.
pub fn workflow_key(id: &str) -> (k: String)
    ensures
        k@ == "workflow:"@ + id@,
{
    cat("workflow:", id)
}

/// The key under which an execution record is stored.
pub fn execution_key(id: &str) -> (k: String)
    ensures
        k@ == "execution:"@ + id@,
{
    cat("execution:", id)
}

/// The key of the index of a workflow's executions.
pub fn workflow_executions_key(workflow_id: &str) -> (k: String)
    ensures
        k@ == "workflow_executions:"@ + workflow_id@,
{
    cat("workflow_executions:", workflow_id)
}

/// The workflow id a stored key names, when it is a workflow key.
pub fn workflow_id_from_key(key: &str) -> (r: Option<String>)
    ensures
        match r {
            Some(id) => key@ == "workflow:"@ + id@,
            None => !(9 <= key@.len() && key@.subrange(0, 9) == "workflow:"@),
        },
{
    proof {
        reveal_strlit("workflow:");
    }
    if starts_with_text(key, "workflow:") {
        let chars = crate::text::chars_of(key);
        let mut rest: Vec<char> = Vec::new();
        let mut i: usize = 9;
        while i < chars.len()
            invariant
                9 <= i <= chars@.len(),
                chars@ == key@,
                rest@ == key@.subrange(9, i as int),
            decreases chars@.len() - i,
        {
            rest.push(chars[i]);
            i = i + 1;
        }
        let id = crate::text::string_of(rest.as_slice());
        assert(key@ =~= "workflow:"@ + id@);
        Some(id)
    } else {
        None
    }
}

/// The index of a workflow's executions after one more is saved: the ids in
/// order with the new one last; beyond `max`, the `max` newest, newest first.
pub open spec fn index_after(ids: Seq<Seq<char>>, id: Seq<char>, max: nat) -> Seq<Seq<char>> {
    let all = ids.push(id);
    if all.len() > max { all.reverse().take(max as int) } else { all }
}

/// The index of a workflow's executions after `id` is saved.
pub fn index_after_save(ids: Vec<String>, id: String, max: usize) -> (r: Vec<String>)
    ensures
        texts(r@) == index_after(texts(ids@), id@, max as nat),
{
    let mut all = ids;
    let ghost before = texts(all@);
    all.push(id);
    let ghost full = texts(all@);
    assert(full =~= before.push(id@));
    if all.len() <= max {
        return all;
    }
    let mut r: Vec<String> = Vec::new();
    let n = all.len();
    let mut k: usize = 0;
    while k < max
        invariant
            k <= max < n,
            n == all@.len(),
            full == texts(all@),
            texts(r@) == full.reverse().take(k as int),
        decreases max - k,
    {
        let ghost prev = texts(r@);
        r.push(all[n - 1 - k].clone());
        assert(texts(r@) =~= prev.push(full[n - 1 - k]));
        assert(full.reverse().take(k + 1) =~= full.reverse().take(k as int).push(full.reverse()[k as int]));
        k = k + 1;
    }
    r
}

/// Whether `r` is the first `limit` positions (all, without a limit) of the
/// start times taken newest first, ties in stored order.
pub open spec fn is_newest_order(starts: Seq<i64>, limit: Option<usize>, r: Seq<usize>) -> bool {
    exists|order: Seq<usize>| #[trigger] is_stable_order(starts, true, order)
        && r == match limit {
            Some(l) => if order.len() > l { order.take(l as int) } else { order },
            None => order,
        }
}

/// The positions of records by their start times, newest first, at most
/// `limit` of them.
pub fn newest_order(starts: &Vec<i64>, limit: Option<usize>) -> (r: Vec<usize>)
    ensures
        is_newest_order(starts@, limit, r@),
{
    let mut order = stable_order(starts, true);
    let ghost full = order@;
    match limit {
        Some(l) => {
            order.truncate(l);
            assert(order@ =~= if full.len() > l { full.take(l as int) } else { full });
        },
        None => {},
    }
    order
}

/// The keys of the records started before `older_than`, in order.
pub open spec fn stale(entries: Seq<(Seq<char>, i64)>, older_than: i64) -> Seq<Seq<char>>
    decreases entries.len(),
{
    if entries.len() == 0 {
        Seq::empty()
    } else {
        let before = stale(entries.drop_last(), older_than);
        if entries.last().1 < older_than { before.push(entries.last().0) } else { before }
    }
}

/// The keys of the records, given with their start times, that started
/// before `older_than`.
pub fn stale_keys(entries: &Vec<(String, i64)>, older_than: i64) -> (r: Vec<String>)
    ensures
        texts(r@) == stale(entries@.map_values(|e: (String, i64)| (e.0@, e.1)), older_than),
{
    let ghost es = entries@.map_values(|e: (String, i64)| (e.0@, e.1));
    let mut r: Vec<String> = Vec::new();
    let mut i: usize = 0;
    while i < entries.len()
        invariant
            i <= entries@.len(),
            es == entries@.map_values(|e: (String, i64)| (e.0@, e.1)),
            texts(r@) == stale(es.subrange(0, i as int), older_than),
        decreases entries@.len() - i,
    {
        let ghost prev = texts(r@);
        assert(es.subrange(0, i + 1).drop_last() =~= es.subrange(0, i as int));
        assert(es.subrange(0, i + 1).last() == (entries@[i as int].0@, entries@[i as int].1));
        if entries[i].1 < older_than {
            r.push(owned(entries[i].0.as_str()));
            assert(texts(r@) =~= prev.push(entries@[i as int].0@));
        }
        i = i + 1;
    }
    assert(es.subrange(0, i as int) =~= es);
    r
}

} // verus!
