//! A map from text keys to text values that remembers insertion order.
use vstd::prelude::*;

verus! {

/// The entries of a map as character sequences, in insertion order.
pub open spec fn pair_views(e: Seq<(String, String)>) -> Seq<(Seq<char>, Seq<char>)> {
    e.map_values(|p: (String, String)| (p.0@, p.1@))
}

/// Whether no key occurs twice in a list of entries.
pub open spec fn keys_distinct(e: Seq<(Seq<char>, Seq<char>)>) -> bool {
    forall|i: int, j: int| 0 <= i < e.len() && 0 <= j < e.len() && i != j ==> #[trigger] e[i].0 != #[trigger] e[j].0
}

/// Whether `k` is the key of some entry.
pub open spec fn has_key(e: Seq<(Seq<char>, Seq<char>)>, k: Seq<char>) -> bool {
    exists|i: int| 0 <= i < e.len() && #[trigger] e[i].0 == k
}

/// The value stored under `k` (meaningful when `k` is present).
pub open spec fn value_at(e: Seq<(Seq<char>, Seq<char>)>, k: Seq<char>) -> Seq<char> {
    e[choose|i: int| 0 <= i < e.len() && #[trigger] e[i].0 == k].1
}

/// The map that a list of entries with distinct keys denotes.
pub open spec fn as_map(e: Seq<(Seq<char>, Seq<char>)>) -> Map<Seq<char>, Seq<char>> {
    Map::new(|k: Seq<char>| has_key(e, k), |k: Seq<char>| value_at(e, k))
}

/// With distinct keys, the entry at `i` determines the value of its key.
pub proof fn lemma_value_at(e: Seq<(Seq<char>, Seq<char>)>, i: int)
    requires
        keys_distinct(e),
        0 <= i < e.len(),
    ensures
        has_key(e, e[i].0),
        value_at(e, e[i].0) == e[i].1,
        as_map(e).dom().contains(e[i].0),
        as_map(e)[e[i].0] == e[i].1,
{
    let k = e[i].0;
    assert(has_key(e, k));
    let j = choose|j: int| 0 <= j < e.len() && #[trigger] e[j].0 == k;
    assert(e[j].0 == k);
    if j != i {
        assert(e[i].0 != e[j].0);
    }
}

/// Overwriting the value of a present key keeps the keys distinct and
/// updates the denoted map.
pub proof fn lemma_update_pairs(e: Seq<(Seq<char>, Seq<char>)>, i: int, k: Seq<char>, v: Seq<char>)
    requires
        keys_distinct(e),
        0 <= i < e.len(),
        e[i].0 == k,
    ensures
        keys_distinct(e.update(i, (k, v))),
        as_map(e.update(i, (k, v))) == as_map(e).insert(k, v),
{
    let n = e.update(i, (k, v));
    assert forall|a: int, b: int| 0 <= a < n.len() && 0 <= b < n.len() && a != b implies
        #[trigger] n[a].0 != #[trigger] n[b].0 by {
        assert(e[a].0 != e[b].0);
    }
    assert forall|k2: Seq<char>| has_key(n, k2) <==> (has_key(e, k2) || k2 == k) by {
        if has_key(n, k2) {
            let j = choose|j: int| 0 <= j < n.len() && #[trigger] n[j].0 == k2;
            assert(e[j].0 == k2 || j == i);
        }
        if has_key(e, k2) {
            let j = choose|j: int| 0 <= j < e.len() && #[trigger] e[j].0 == k2;
            assert(n[j].0 == k2);
        }
        if k2 == k {
            assert(n[i].0 == k2);
        }
    }
    assert forall|k2: Seq<char>| has_key(n, k2) implies value_at(n, k2) == (if k2 == k { v } else { value_at(e, k2) }) by {
        let j = choose|j: int| 0 <= j < n.len() && #[trigger] n[j].0 == k2;
        lemma_value_at(n, j);
        if j != i {
            lemma_value_at(e, j);
        }
    }
    assert(as_map(n) =~= as_map(e).insert(k, v));
}

/// Appending an absent key keeps the keys distinct and extends the denoted map.
pub proof fn lemma_push_pairs(e: Seq<(Seq<char>, Seq<char>)>, k: Seq<char>, v: Seq<char>)
    requires
        keys_distinct(e),
        !has_key(e, k),
    ensures
        keys_distinct(e.push((k, v))),
        as_map(e.push((k, v))) == as_map(e).insert(k, v),
{
    let n = e.push((k, v));
    assert forall|a: int, b: int| 0 <= a < n.len() && 0 <= b < n.len() && a != b implies
        #[trigger] n[a].0 != #[trigger] n[b].0 by {
        if a < e.len() && b < e.len() {
            assert(e[a].0 != e[b].0);
        } else if a < e.len() {
            assert(e[a].0 != k);
        } else {
            assert(e[b].0 != k);
        }
    }
    assert forall|k2: Seq<char>| has_key(n, k2) <==> (has_key(e, k2) || k2 == k) by {
        if has_key(n, k2) {
            let j = choose|j: int| 0 <= j < n.len() && #[trigger] n[j].0 == k2;
            if j < e.len() {
                assert(e[j].0 == k2);
            }
        }
        if has_key(e, k2) {
            let j = choose|j: int| 0 <= j < e.len() && #[trigger] e[j].0 == k2;
            assert(n[j].0 == k2);
        }
        if k2 == k {
            assert(n[e.len() as int].0 == k2);
        }
    }
    assert forall|k2: Seq<char>| has_key(n, k2) implies value_at(n, k2) == (if k2 == k { v } else { value_at(e, k2) }) by {
        let j = choose|j: int| 0 <= j < n.len() && #[trigger] n[j].0 == k2;
        lemma_value_at(n, j);
        if j < e.len() {
            lemma_value_at(e, j);
        }
    }
    assert(as_map(n) =~= as_map(e).insert(k, v));
}

/// A map from text keys to text values, in insertion order (`HashMap<String, String>`
/// of the original, with a fixed iteration order).
pub struct StringMap {
    entries: Vec<(String, String)>,
}

impl View for StringMap {
    type V = Map<Seq<char>, Seq<char>>;

    open spec fn view(&self) -> Map<Seq<char>, Seq<char>> {
        as_map(self.pairs())
    }
}

impl StringMap {
    /// The entries, in insertion order.
    pub closed spec fn pairs(&self) -> Seq<(Seq<char>, Seq<char>)> {
        pair_views(self.entries@)
    }

    #[verifier::type_invariant]
    closed spec fn inv(&self) -> bool {
        keys_distinct(pair_views(self.entries@))
    }

    /// An empty map.
    pub fn new() -> (m: Self)
        ensures
            m.pairs() == Seq::<(Seq<char>, Seq<char>)>::empty(),
            m@ == Map::<Seq<char>, Seq<char>>::empty(),
    {
        let m = StringMap { entries: Vec::new() };
        assert(m.pairs() =~= Seq::<(Seq<char>, Seq<char>)>::empty());
        assert(m@ =~= Map::<Seq<char>, Seq<char>>::empty());
        m
    }

    /// A copy with the same entries in the same order.
    pub fn duplicate(&self) -> (r: Self)
        ensures
            r.pairs() == self.pairs(),
            r@ == self@,
    {
        proof {
            use_type_invariant(self);
        }
        let mut e: Vec<(String, String)> = Vec::new();
        let mut i: usize = 0;
        while i < self.entries.len()
            invariant
                i <= self.entries@.len(),
                pair_views(e@) == self.pairs().subrange(0, i as int),
            decreases self.entries@.len() - i,
        {
            let k = self.entries[i].0.clone();
            let v = self.entries[i].1.clone();
            assert(k@ == self.pairs()[i as int].0 && v@ == self.pairs()[i as int].1);
            let ghost prev = e@;
            e.push((k, v));
            assert(pair_views(e@) =~= pair_views(prev).push((k@, v@)));
            i = i + 1;
            assert(pair_views(e@) =~= self.pairs().subrange(0, i as int));
        }
        assert(pair_views(e@) =~= self.pairs());
        StringMap { entries: e }
    }

    /// The number of entries.
    pub fn len(&self) -> (n: usize)
        ensures
            n == self.pairs().len(),
    {
        self.entries.len()
    }

    /// Whether there are no entries.
    pub fn is_empty(&self) -> (b: bool)
        ensures
            b == (self.pairs().len() == 0),
            b == (self@.dom() == Set::<Seq<char>>::empty()),
    {
        let b = self.entries.len() == 0;
        if !b {
            proof {
                use_type_invariant(self);
                lemma_value_at(self.pairs(), 0);
            }
        } else {
            assert(self@.dom() =~= Set::<Seq<char>>::empty());
        }
        b
    }

    /// The position of `key`, if present.
    fn position(&self, key: &str) -> (r: Option<usize>)
        ensures
            r matches Some(i) ==> i < self.pairs().len() && self.pairs()[i as int].0 == key@,
            r is None ==> !has_key(self.pairs(), key@),
    {
        let k = String::from_str(key);
        let mut i: usize = 0;
        while i < self.entries.len()
            invariant
                i <= self.entries@.len(),
                k@ == key@,
                forall|j: int| 0 <= j < i ==> #[trigger] self.pairs()[j].0 != key@,
            decreases self.entries@.len() - i,
        {
            if self.entries[i].0 == k {
                return Some(i);
            }
            i = i + 1;
        }
        None
    }

    /// Whether `key` is present.
    pub fn contains_key(&self, key: &str) -> (b: bool)
        ensures
            b == self@.dom().contains(key@),
    {
        self.position(key).is_some()
    }

    /// The value stored under `key`.
    pub fn get(&self, key: &str) -> (r: Option<&String>)
        ensures
            r matches Some(v) ==> self@.dom().contains(key@) && self@[key@] == v@,
            r is None ==> !self@.dom().contains(key@),
    {
        match self.position(key) {
            Some(i) => {
                proof {
                    use_type_invariant(self);
                    lemma_value_at(self.pairs(), i as int);
                }
                Some(&self.entries[i].1)
            },
            None => None,
        }
    }

    /// The key and value of the entry at position `i`.
    pub fn entry(&self, i: usize) -> (r: (&String, &String))
        requires
            i < self.pairs().len(),
        ensures
            r.0@ == self.pairs()[i as int].0,
            r.1@ == self.pairs()[i as int].1,
    {
        (&self.entries[i].0, &self.entries[i].1)
    }

    /// Stores `value` under `key`; a present key keeps its position.
    pub fn insert(&mut self, key: String, value: String)
        ensures
            final(self)@ == old(self)@.insert(key@, value@),
            has_key(old(self).pairs(), key@) ==> final(self).pairs().len() == old(self).pairs().len(),
            !has_key(old(self).pairs(), key@) ==> final(self).pairs() == old(self).pairs().push((key@, value@)),
    {
        proof {
            use_type_invariant(&*self);
        }
        let ghost old_pairs = self.pairs();
        match self.position(key.as_str()) {
            Some(i) => {
                proof {
                    lemma_update_pairs(old_pairs, i as int, key@, value@);
                }
                let mut e: Vec<(String, String)> = Vec::new();
                std::mem::swap(&mut e, &mut self.entries);
                assert(pair_views(e@.update(i as int, (key, value))) =~= old_pairs.update(i as int, (key@, value@)));
                e.set(i, (key, value));
                self.entries = e;
            },
            None => {
                proof {
                    lemma_push_pairs(old_pairs, key@, value@);
                }
                let mut e: Vec<(String, String)> = Vec::new();
                std::mem::swap(&mut e, &mut self.entries);
                assert(pair_views(e@.push((key, value))) =~= old_pairs.push((key@, value@)));
                e.push((key, value));
                self.entries = e;
            },
        }
    }

    /// The keys, in insertion order.
    pub fn keys(&self) -> (r: Vec<String>)
        ensures
            r@.len() == self.pairs().len(),
            forall|i: int| 0 <= i < r@.len() ==> #[trigger] r@[i]@ == self.pairs()[i].0,
    {
        let mut r: Vec<String> = Vec::new();
        let mut i: usize = 0;
        while i < self.entries.len()
            invariant
                i <= self.entries@.len(),
                r@.len() == i,
                forall|j: int| 0 <= j < i ==> #[trigger] r@[j]@ == self.pairs()[j].0,
            decreases self.entries@.len() - i,
        {
            r.push(self.entries[i].0.clone());
            i = i + 1;
        }
        r
    }
}

} // verus!
