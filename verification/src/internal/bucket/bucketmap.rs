//! A map from bucket names to stores, kept as a list of distinct names.

use vstd::prelude::*;

use crate::bucket::bkt::Bucket;

verus! {

/// Whether no two entries have the same key.
pub open spec fn names_distinct<V>(e: Seq<(Bucket, V)>) -> bool {
    forall|i: int, j: int|
        0 <= i < e.len() && 0 <= j < e.len() && i != j ==> #[trigger] e[i].0@ != #[trigger] e[j].0@
}

/// The map that a list of entries stands for.
pub open spec fn named_map<V>(e: Seq<(Bucket, V)>) -> Map<Seq<char>, V>
    decreases e.len(),
{
    if e.len() == 0 {
        Map::empty()
    } else {
        named_map(e.drop_last()).insert(e.last().0@, e.last().1)
    }
}

/// A list of distinct keys maps exactly its keys, each to its own value.
proof fn lemma_named_map<V>(e: Seq<(Bucket, V)>)
    requires
        names_distinct(e),
    ensures
        forall|k: Seq<char>|
            #[trigger] named_map(e).contains_key(k) <==> exists|i: int|
                0 <= i < e.len() && e[i].0@ == k,
        forall|i: int| 0 <= i < e.len() ==> #[trigger] named_map(e)[e[i].0@] == e[i].1,
    decreases e.len(),
{
    if e.len() > 0 {
        let d = e.drop_last();
        assert(names_distinct(d));
        lemma_named_map(d);
        assert forall|k: Seq<char>|
            #[trigger] named_map(e).contains_key(k) <==> exists|i: int|
                0 <= i < e.len() && e[i].0@ == k by {
            if named_map(e).contains_key(k) && k != e.last().0@ {
                assert(named_map(d).contains_key(k));
                let i = choose|i: int| 0 <= i < d.len() && d[i].0@ == k;
                assert(e[i].0@ == k);
            }
            if exists|i: int| 0 <= i < e.len() && e[i].0@ == k {
                let i = choose|i: int| 0 <= i < e.len() && e[i].0@ == k;
                if i < d.len() {
                    assert(d[i].0@ == k);
                    assert(named_map(d).contains_key(k));
                }
            }
        }
        assert forall|i: int| 0 <= i < e.len() implies #[trigger] named_map(e)[e[i].0@]
            == e[i].1 by {
            if i < d.len() {
                assert(d[i] == e[i]);
                assert(e[i].0@ != e[e.len() - 1].0@);
                assert(named_map(d)[d[i].0@] == d[i].1);
            } else {
                assert(e[i] == e.last());
            }
        }
    }
}

/// Two lists of distinct keys with the same keys and values stand for the same map.
proof fn lemma_same_named_map<V>(e1: Seq<(Bucket, V)>, m: Map<Seq<char>, V>)
    requires
        names_distinct(e1),
        forall|k: Seq<char>|
            #[trigger] m.contains_key(k) <==> exists|i: int| 0 <= i < e1.len() && e1[i].0@ == k,
        forall|i: int| 0 <= i < e1.len() ==> #[trigger] m[e1[i].0@] == e1[i].1,
    ensures
        named_map(e1) == m,
{
    lemma_named_map(e1);
    assert forall|k: Seq<char>| #[trigger] m.contains_key(k) implies named_map(e1)[k] == m[k] by {
        let i = choose|i: int| 0 <= i < e1.len() && e1[i].0@ == k;
    }
    assert(named_map(e1) =~= m);
}

/// A map from bucket names to values.
pub struct BucketMap<V> {
    entries: Vec<(Bucket, V)>,
}

impl<V> View for BucketMap<V> {
    type V = Map<Seq<char>, V>;

    closed spec fn view(&self) -> Map<Seq<char>, V> {
        named_map(self.entries@)
    }
}

impl<V> BucketMap<V> {
    #[verifier::type_invariant]
    spec fn distinct(self) -> bool {
        names_distinct(self.entries@)
    }

    /// The empty map.
    pub fn new() -> (m: Self)
        ensures
            m@ == Map::<Seq<char>, V>::empty(),
    {
        BucketMap { entries: Vec::new() }
    }

    fn find(&self, k: &Bucket) -> (r: Option<usize>)
        ensures
            match r {
                Some(i) => i < self.entries@.len() && self.entries@[i as int].0@ == k@,
                None => forall|i: int| 0 <= i < self.entries@.len() ==> self.entries@[i].0@ != k@,
            },
    {
        let mut i: usize = 0;
        while i < self.entries.len()
            invariant
                i <= self.entries@.len(),
                forall|j: int| 0 <= j < i ==> self.entries@[j].0@ != k@,
            decreases self.entries@.len() - i,
        {
            if self.entries[i].0.same_as(k) {
                return Some(i);
            }
            i = i + 1;
        }
        None
    }

    /// The value of `k`, if it is bound.
    pub fn get(&self, k: &Bucket) -> (r: Option<&V>)
        ensures
            match r {
                Some(v) => self@.contains_key(k@) && *v == self@[k@],
                None => !self@.contains_key(k@),
            },
    {
        proof {
            use_type_invariant(self);
            lemma_named_map(self.entries@);
        }
        match self.find(k) {
            Some(i) => Some(&self.entries[i].1),
            None => None,
        }
    }

    /// Whether `k` is bound.
    pub fn contains_key(&self, k: &Bucket) -> (r: bool)
        ensures
            r == self@.contains_key(k@),
    {
        proof {
            use_type_invariant(self);
            lemma_named_map(self.entries@);
        }
        self.find(k).is_some()
    }

    /// Binds `k` to `v`; gives back what `k` was bound to.
    pub fn insert(&mut self, k: Bucket, v: V) -> (r: Option<V>)
        ensures
            final(self)@ == old(self)@.insert(k@, v),
            r == old(self)@.get(k@),
    {
        proof {
            use_type_invariant(&*self);
            lemma_named_map(self.entries@);
        }
        let ghost m = self@;
        let ghost kv = k@;
        let ghost vv = v;
        match self.find(&k) {
            Some(i) => {
                let ghost e0 = self.entries@;
                let mut es: Vec<(Bucket, V)> = Vec::new();
                std::mem::swap(&mut es, &mut self.entries);
                let (_, ov) = es.remove(i);
                es.push((k, v));
                proof {
                    let e = es@;
                    assert(e =~= e0.remove(i as int).push(e[e.len() - 1]));
                    assert forall|a: int, b: int|
                        0 <= a < e.len() && 0 <= b < e.len() && a != b implies #[trigger] e[a].0@
                        != #[trigger] e[b].0@ by {
                        if a < e.len() - 1 && b < e.len() - 1 {
                            let a0 = if a < i { a } else { a + 1 };
                            let b0 = if b < i { b } else { b + 1 };
                            assert(e[a] == e0[a0] && e[b] == e0[b0]);
                        } else if a < e.len() - 1 {
                            let a0 = if a < i { a } else { a + 1 };
                            assert(e[a] == e0[a0]);
                        } else {
                            let b0 = if b < i { b } else { b + 1 };
                            assert(e[b] == e0[b0]);
                        }
                    }
                    let m2 = m.insert(kv, vv);
                    assert forall|key: Seq<char>| #[trigger] m2.contains_key(key) <==> exists|j: int|
                        0 <= j < e.len() && e[j].0@ == key by {
                        if m2.contains_key(key) && key != kv {
                            let j0 = choose|j: int| 0 <= j < e0.len() && e0[j].0@ == key;
                            let j = if j0 < i { j0 } else { j0 - 1 };
                            assert(e[j].0@ == key);
                        }
                        if key == kv {
                            assert(e[e.len() - 1].0@ == key);
                        }
                        if exists|j: int| 0 <= j < e.len() && e[j].0@ == key {
                            let j = choose|j: int| 0 <= j < e.len() && e[j].0@ == key;
                            if j < e.len() - 1 {
                                let j0 = if j < i { j } else { j + 1 };
                                assert(e0[j0].0@ == key);
                            }
                        }
                    }
                    assert forall|j: int| 0 <= j < e.len() implies #[trigger] m2[e[j].0@]
                        == e[j].1 by {
                        if j < e.len() - 1 {
                            let j0 = if j < i { j } else { j + 1 };
                            assert(e[j] == e0[j0]);
                            assert(j0 != i);
                        }
                    }
                    lemma_same_named_map(e, m2);
                }
                self.entries = es;
                Some(ov)
            },
            None => {
                let ghost e0 = self.entries@;
                let mut es: Vec<(Bucket, V)> = Vec::new();
                std::mem::swap(&mut es, &mut self.entries);
                es.push((k, v));
                proof {
                    let e = es@;
                    assert(e.drop_last() =~= e0);
                    assert forall|a: int, b: int|
                        0 <= a < e.len() && 0 <= b < e.len() && a != b implies #[trigger] e[a].0@
                        != #[trigger] e[b].0@ by {
                        if a < e.len() - 1 && b < e.len() - 1 {
                            assert(e[a] == e0[a] && e[b] == e0[b]);
                        } else if a < e.len() - 1 {
                            assert(e[a] == e0[a]);
                        } else {
                            assert(e[b] == e0[b]);
                        }
                    }
                }
                self.entries = es;
                None
            },
        }
    }

    /// Unbinds `k`; gives back what it was bound to.
    pub fn remove(&mut self, k: &Bucket) -> (r: Option<V>)
        ensures
            final(self)@ == old(self)@.remove(k@),
            r == old(self)@.get(k@),
    {
        proof {
            use_type_invariant(&*self);
            lemma_named_map(self.entries@);
        }
        let ghost m = self@;
        match self.find(k) {
            Some(i) => {
                let ghost e0 = self.entries@;
                let mut es: Vec<(Bucket, V)> = Vec::new();
                std::mem::swap(&mut es, &mut self.entries);
                let (_, ov) = es.remove(i);
                proof {
                    let e = es@;
                    assert(e =~= e0.remove(i as int));
                    assert forall|a: int, b: int|
                        0 <= a < e.len() && 0 <= b < e.len() && a != b implies #[trigger] e[a].0@
                        != #[trigger] e[b].0@ by {
                        let a0 = if a < i { a } else { a + 1 };
                        let b0 = if b < i { b } else { b + 1 };
                        assert(e[a] == e0[a0] && e[b] == e0[b0]);
                    }
                    let m2 = m.remove(k@);
                    assert forall|key: Seq<char>| #[trigger] m2.contains_key(key) <==> exists|j: int|
                        0 <= j < e.len() && e[j].0@ == key by {
                        if m2.contains_key(key) {
                            let j0 = choose|j: int| 0 <= j < e0.len() && e0[j].0@ == key;
                            let j = if j0 < i { j0 } else { j0 - 1 };
                            assert(e[j].0@ == key);
                        }
                        if exists|j: int| 0 <= j < e.len() && e[j].0@ == key {
                            let j = choose|j: int| 0 <= j < e.len() && e[j].0@ == key;
                            let j0 = if j < i { j } else { j + 1 };
                            assert(e0[j0].0@ == key);
                        }
                    }
                    assert forall|j: int| 0 <= j < e.len() implies #[trigger] m2[e[j].0@]
                        == e[j].1 by {
                        let j0 = if j < i { j } else { j + 1 };
                        assert(e[j] == e0[j0]);
                    }
                    lemma_same_named_map(e, m2);
                }
                self.entries = es;
                Some(ov)
            },
            None => {
                assert(m.remove(k@) =~= m);
                None
            },
        }
    }
}

} // verus!
