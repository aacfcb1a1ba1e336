//! A map from text keys to values of any type that remembers insertion order.
use vstd::prelude::*;

verus! {

/// The entries of a table with their keys as character sequences.
pub open spec fn keyed_views<V>(e: Seq<(String, V)>) -> Seq<(Seq<char>, V)> {
    e.map_values(|p: (String, V)| (p.0@, p.1))
}

/// Whether no key occurs twice.
pub open spec fn distinct_keys<V>(e: Seq<(Seq<char>, V)>) -> bool {
    forall|i: int, j: int| 0 <= i < e.len() && 0 <= j < e.len() && i != j ==> #[trigger] e[i].0 != #[trigger] e[j].0
}

/// Whether `k` is the key of some entry.
pub open spec fn keyed_has<V>(e: Seq<(Seq<char>, V)>, k: Seq<char>) -> bool {
    exists|i: int| 0 <= i < e.len() && #[trigger] e[i].0 == k
}

/// The value stored under `k` (meaningful when `k` is present).
pub open spec fn keyed_value<V>(e: Seq<(Seq<char>, V)>, k: Seq<char>) -> V {
    e[choose|i: int| 0 <= i < e.len() && #[trigger] e[i].0 == k].1
}

/// The map that a list of entries with distinct keys denotes.
pub open spec fn keyed_map<V>(e: Seq<(Seq<char>, V)>) -> Map<Seq<char>, V> {
    Map::new(|k: Seq<char>| keyed_has(e, k), |k: Seq<char>| keyed_value(e, k))
}

/// With distinct keys, the entry at `i` determines the value of its key.
pub proof fn lemma_keyed_value<V>(e: Seq<(Seq<char>, V)>, i: int)
    requires
        distinct_keys(e),
        0 <= i < e.len(),
    ensures
        keyed_map(e).dom().contains(e[i].0),
        keyed_map(e)[e[i].0] == e[i].1,
{
    let k = e[i].0;
    assert(keyed_has(e, k));
    let j = choose|j: int| 0 <= j < e.len() && #[trigger] e[j].0 == k;
    if j != i {
        assert(e[i].0 != e[j].0);
    }
}

/// Overwriting the value of a present key keeps keys distinct and updates the map.
pub proof fn lemma_keyed_update<V>(e: Seq<(Seq<char>, V)>, i: int, v: V)
    requires
        distinct_keys(e),
        0 <= i < e.len(),
    ensures
        distinct_keys(e.update(i, (e[i].0, v))),
        keyed_map(e.update(i, (e[i].0, v))) == keyed_map(e).insert(e[i].0, v),
{
    let k = e[i].0;
    let n = e.update(i, (k, v));
    assert forall|a: int, b: int| 0 <= a < n.len() && 0 <= b < n.len() && a != b implies
        #[trigger] n[a].0 != #[trigger] n[b].0 by {
        assert(e[a].0 != e[b].0);
    }
    assert forall|k2: Seq<char>| keyed_has(n, k2) <==> keyed_has(e, k2) by {
        if keyed_has(n, k2) {
            let j = choose|j: int| 0 <= j < n.len() && #[trigger] n[j].0 == k2;
            assert(e[j].0 == k2);
        }
        if keyed_has(e, k2) {
            let j = choose|j: int| 0 <= j < e.len() && #[trigger] e[j].0 == k2;
            assert(n[j].0 == k2);
        }
    }
    assert forall|k2: Seq<char>| keyed_has(n, k2) implies keyed_value(n, k2) == (if k2 == k { v } else { keyed_value(e, k2) }) by {
        let j = choose|j: int| 0 <= j < n.len() && #[trigger] n[j].0 == k2;
        lemma_keyed_value(n, j);
        if j != i {
            lemma_keyed_value(e, j);
        }
    }
    lemma_keyed_value(e, i);
    assert(keyed_map(n) =~= keyed_map(e).insert(k, v));
}

/// Appending an absent key keeps keys distinct and extends the map.
pub proof fn lemma_keyed_push<V>(e: Seq<(Seq<char>, V)>, k: Seq<char>, v: V)
    requires
        distinct_keys(e),
        !keyed_has(e, k),
    ensures
        distinct_keys(e.push((k, v))),
        keyed_map(e.push((k, v))) == keyed_map(e).insert(k, v),
{
    let n = e.push((k, v));
    assert forall|a: int, b: int| 0 <= a < n.len() && 0 <= b < n.len() && a != b implies
        #[trigger] n[a].0 != #[trigger] n[b].0 by {
        if a < e.len() && b < e.len() {
            assert(e[a].0 != e[b].0);
        } else if a < e.len() {
            assert(e[a].0 != k);
        } else {
            assert(e[b].0 != k);
        }
    }
    assert forall|k2: Seq<char>| keyed_has(n, k2) <==> (keyed_has(e, k2) || k2 == k) by {
        if keyed_has(n, k2) {
            let j = choose|j: int| 0 <= j < n.len() && #[trigger] n[j].0 == k2;
            if j < e.len() {
                assert(e[j].0 == k2);
            }
        }
        if keyed_has(e, k2) {
            let j = choose|j: int| 0 <= j < e.len() && #[trigger] e[j].0 == k2;
            assert(n[j].0 == k2);
        }
        if k2 == k {
            assert(n[e.len() as int].0 == k2);
        }
    }
    assert forall|k2: Seq<char>| keyed_has(n, k2) implies keyed_value(n, k2) == (if k2 == k { v } else { keyed_value(e, k2) }) by {
        let j = choose|j: int| 0 <= j < n.len() && #[trigger] n[j].0 == k2;
        lemma_keyed_value(n, j);
        if j < e.len() {
            lemma_keyed_value(e, j);
        }
    }
    assert(keyed_map(n) =~= keyed_map(e).insert(k, v));
}

/// Removing the entry at `i` keeps keys distinct and removes its key from the map.
pub proof fn lemma_keyed_remove<V>(e: Seq<(Seq<char>, V)>, i: int)
    requires
        distinct_keys(e),
        0 <= i < e.len(),
    ensures
        distinct_keys(e.remove(i)),
        keyed_map(e.remove(i)) == keyed_map(e).remove(e[i].0),
{
    let k = e[i].0;
    let n = e.remove(i);
    assert forall|a: int, b: int| 0 <= a < n.len() && 0 <= b < n.len() && a != b implies
        #[trigger] n[a].0 != #[trigger] n[b].0 by {
        let a2 = if a < i { a } else { a + 1 };
        let b2 = if b < i { b } else { b + 1 };
        assert(e[a2].0 != e[b2].0);
    }
    assert forall|k2: Seq<char>| keyed_has(n, k2) <==> (keyed_has(e, k2) && k2 != k) by {
        if keyed_has(n, k2) {
            let j = choose|j: int| 0 <= j < n.len() && #[trigger] n[j].0 == k2;
            let j2 = if j < i { j } else { j + 1 };
            assert(e[j2].0 == k2);
            assert(e[j2].0 != e[i].0);
        }
        if keyed_has(e, k2) && k2 != k {
            let j = choose|j: int| 0 <= j < e.len() && #[trigger] e[j].0 == k2;
            if j < i {
                assert(n[j].0 == k2);
            } else {
                assert(n[j - 1].0 == k2);
            }
        }
    }
    assert forall|k2: Seq<char>| keyed_has(n, k2) implies keyed_value(n, k2) == keyed_value(e, k2) by {
        let j = choose|j: int| 0 <= j < n.len() && #[trigger] n[j].0 == k2;
        lemma_keyed_value(n, j);
        let j2 = if j < i { j } else { j + 1 };
        assert(e[j2] == n[j]);
        lemma_keyed_value(e, j2);
    }
    assert(keyed_map(n) =~= keyed_map(e).remove(k));
}

/// A map from text keys to values, kept in insertion order.
pub struct Table<V> {
    entries: Vec<(String, V)>,
}

impl<V> View for Table<V> {
    type V = Map<Seq<char>, V>;

    open spec fn view(&self) -> Map<Seq<char>, V> {
        keyed_map(self.items())
    }
}

impl<V> Table<V> {
    /// The entries, in insertion order.
    pub closed spec fn items(&self) -> Seq<(Seq<char>, V)> {
        keyed_views(self.entries@)
    }

    #[verifier::type_invariant]
    closed spec fn inv(&self) -> bool {
        distinct_keys(keyed_views(self.entries@))
    }

    /// An empty table.
    pub fn new() -> (t: Self)
        ensures
            t.items() == Seq::<(Seq<char>, V)>::empty(),
            t@ == Map::<Seq<char>, V>::empty(),
    {
        let t = Table { entries: Vec::new() };
        assert(t.items() =~= Seq::<(Seq<char>, V)>::empty());
        assert(t@ =~= Map::<Seq<char>, V>::empty());
        t
    }

    /// The number of entries.
    pub fn len(&self) -> (n: usize)
        ensures
            n == self.items().len(),
            distinct_keys(self.items()),
            n == self@.dom().len(),
            self@.dom().finite(),
    {
        proof {
            use_type_invariant(self);
            self.lemma_dom_len();
        }
        self.entries.len()
    }

    proof fn lemma_dom_len(&self)
        requires
            distinct_keys(self.items()),
        ensures
            self@.dom().finite(),
            self@.dom().len() == self.items().len(),
    {
        let e = self.items();
        let keys = e.map_values(|p: (Seq<char>, V)| p.0);
        assert forall|i: int, j: int| 0 <= i < keys.len() && 0 <= j < keys.len() && i != j implies keys[i] != keys[j] by {
            assert(e[i].0 != e[j].0);
        }
        keys.unique_seq_to_set();
        assert forall|k: Seq<char>| self@.dom().contains(k) <==> keys.to_set().contains(k) by {
            if self@.dom().contains(k) {
                let j = choose|j: int| 0 <= j < e.len() && #[trigger] e[j].0 == k;
                assert(keys[j] == k);
            }
            if keys.to_set().contains(k) {
                let j = choose|j: int| 0 <= j < keys.len() && keys[j] == k;
                assert(e[j].0 == k);
            }
        }
        assert(self@.dom() =~= keys.to_set());
    }

    /// The keys of a table are finitely many.
    pub proof fn lemma_dom_finite(&self)
        ensures
            self@.dom().finite(),
    {
        let e = self.items();
        let keys = e.map_values(|p: (Seq<char>, V)| p.0);
        assert forall|k: Seq<char>| self@.dom().contains(k) <==> keys.to_set().contains(k) by {
            if self@.dom().contains(k) {
                let j = choose|j: int| 0 <= j < e.len() && #[trigger] e[j].0 == k;
                assert(keys[j] == k);
            }
            if keys.to_set().contains(k) {
                let j = choose|j: int| 0 <= j < keys.len() && keys[j] == k;
                assert(e[j].0 == k);
            }
        }
        assert(self@.dom() =~= keys.to_set());
        vstd::seq_lib::seq_to_set_is_finite(keys);
    }

    /// The position of `key`, if present.
    pub fn position(&self, key: &str) -> (r: Option<usize>)
        ensures
            r matches Some(i) ==> i < self.items().len() && self.items()[i as int].0 == key@,
            r is None ==> !self@.dom().contains(key@),
    {
        let k = String::from_str(key);
        let mut i: usize = 0;
        while i < self.entries.len()
            invariant
                i <= self.entries@.len(),
                k@ == key@,
                forall|j: int| 0 <= j < i ==> #[trigger] self.items()[j].0 != key@,
            decreases self.entries@.len() - i,
        {
            if self.entries[i].0 == k {
                return Some(i);
            }
            i = i + 1;
        }
        None
    }

    /// Whether `key` is present.
    pub fn contains_key(&self, key: &str) -> (b: bool)
        ensures
            b == self@.dom().contains(key@),
    {
        match self.position(key) {
            Some(i) => {
                proof {
                    use_type_invariant(self);
                    lemma_keyed_value(self.items(), i as int);
                }
                true
            },
            None => false,
        }
    }

    /// The value stored under `key`.
    pub fn get(&self, key: &str) -> (r: Option<&V>)
        ensures
            r matches Some(v) ==> self@.dom().contains(key@) && self@[key@] == *v,
            r is None ==> !self@.dom().contains(key@),
    {
        match self.position(key) {
            Some(i) => {
                proof {
                    use_type_invariant(self);
                    lemma_keyed_value(self.items(), i as int);
                }
                Some(&self.entries[i].1)
            },
            None => None,
        }
    }

    /// The key of the entry at position `i`.
    pub fn key_at(&self, i: usize) -> (k: &String)
        requires
            i < self.items().len(),
        ensures
            k@ == self.items()[i as int].0,
            self@.dom().contains(k@),
    {
        proof {
            use_type_invariant(self);
            lemma_keyed_value(self.items(), i as int);
        }
        &self.entries[i].0
    }

    /// The value of the entry at position `i`.
    pub fn value_at(&self, i: usize) -> (v: &V)
        requires
            i < self.items().len(),
        ensures
            *v == self.items()[i as int].1,
            self@.dom().contains(self.items()[i as int].0),
            self@[self.items()[i as int].0] == *v,
    {
        proof {
            use_type_invariant(self);
            lemma_keyed_value(self.items(), i as int);
        }
        &self.entries[i].1
    }

    /// The keys, in insertion order.
    pub fn keys(&self) -> (r: Vec<String>)
        ensures
            r@.len() == self.items().len(),
            forall|i: int| 0 <= i < r@.len() ==> #[trigger] r@[i]@ == self.items()[i].0,
    {
        let mut r: Vec<String> = Vec::new();
        let mut i: usize = 0;
        while i < self.entries.len()
            invariant
                i <= self.entries@.len(),
                r@.len() == i,
                forall|j: int| 0 <= j < i ==> #[trigger] r@[j]@ == self.items()[j].0,
            decreases self.entries@.len() - i,
        {
            r.push(self.entries[i].0.clone());
            i = i + 1;
        }
        r
    }

    /// Stores `value` under `key`; a present key keeps its position.
    pub fn insert(&mut self, key: String, value: V)
        ensures
            final(self)@ == old(self)@.insert(key@, value),
            old(self)@.dom().contains(key@) ==> final(self).items().len() == old(self).items().len(),
            !old(self)@.dom().contains(key@) ==> final(self).items() == old(self).items().push((key@, value)),
            (forall|i: int| 0 <= i < old(self).items().len() ==> #[trigger] old(self).items()[i].0 != key@)
                ==> final(self).items() == old(self).items().push((key@, value)),
    {
        proof {
            use_type_invariant(&*self);
        }
        let ghost old_items = self.items();
        match self.position(key.as_str()) {
            Some(i) => {
                proof {
                    lemma_keyed_update(old_items, i as int, value);
                    lemma_keyed_value(old_items, i as int);
                }
                let mut e: Vec<(String, V)> = Vec::new();
                std::mem::swap(&mut e, &mut self.entries);
                assert(keyed_views(e@.update(i as int, (key, value))) =~= old_items.update(i as int, (key@, value)));
                e.set(i, (key, value));
                self.entries = e;
            },
            None => {
                proof {
                    lemma_keyed_push(old_items, key@, value);
                }
                let mut e: Vec<(String, V)> = Vec::new();
                std::mem::swap(&mut e, &mut self.entries);
                assert(keyed_views(e@.push((key, value))) =~= old_items.push((key@, value)));
                e.push((key, value));
                self.entries = e;
            },
        }
    }

    /// Removes the entry under `key`, keeping the order of the others.
    pub fn remove(&mut self, key: &str) -> (r: Option<V>)
        ensures
            final(self)@ == old(self)@.remove(key@),
            r matches Some(v) ==> old(self)@.dom().contains(key@) && old(self)@[key@] == v,
            r is None ==> !old(self)@.dom().contains(key@),
    {
        proof {
            use_type_invariant(&*self);
        }
        let ghost old_items = self.items();
        match self.position(key) {
            Some(i) => {
                proof {
                    lemma_keyed_remove(old_items, i as int);
                    lemma_keyed_value(old_items, i as int);
                }
                let mut e: Vec<(String, V)> = Vec::new();
                std::mem::swap(&mut e, &mut self.entries);
                assert(keyed_views(e@.remove(i as int)) =~= old_items.remove(i as int));
                let (_k, v) = e.remove(i);
                self.entries = e;
                Some(v)
            },
            None => {
                assert(old(self)@.remove(key@) =~= old(self)@);
                None
            },
        }
    }
}

impl<V: Copy> Table<V> {
    /// A copy with the same entries in the same order.
    pub fn duplicate(&self) -> (r: Self)
        ensures
            r.items() == self.items(),
            r@ == self@,
    {
        proof {
            use_type_invariant(self);
        }
        let mut e: Vec<(String, V)> = Vec::new();
        let mut i: usize = 0;
        while i < self.entries.len()
            invariant
                i <= self.entries@.len(),
                keyed_views(e@) == keyed_views(self.entries@.subrange(0, i as int)),
            decreases self.entries@.len() - i,
        {
            let ghost prev = e@;
            let v: V = self.entries[i].1;
            e.push((self.entries[i].0.clone(), v));
            assert(keyed_views(e@) =~= keyed_views(prev).push((self.entries@[i as int].0@, self.entries@[i as int].1)));
            assert(keyed_views(self.entries@.subrange(0, i + 1)) =~= keyed_views(self.entries@.subrange(0, i as int)).push((self.entries@[i as int].0@, self.entries@[i as int].1)));
            i = i + 1;
        }
        assert(self.entries@.subrange(0, i as int) =~= self.entries@);
        Table { entries: e }
    }
}

} // verus!
