//! A small map keyed by MAC address, kept as a list of pairs with distinct keys.
use vstd::prelude::*;

verus! {

/// The pairs hold exactly the map's contents, each key once.
pub open spec fn pairs_match<V>(pairs: Seq<(String, V)>, contents: Map<Seq<char>, V>) -> bool {
    &&& forall|i: int|
        0 <= i < pairs.len() ==> #[trigger] contents.contains_key(pairs[i].0@) && contents[pairs[i].0@]
            == pairs[i].1
    &&& forall|k: Seq<char>|
        #[trigger] contents.contains_key(k) ==> exists|i: int|
            0 <= i < pairs.len() && #[trigger] pairs[i].0@ == k
    &&& forall|i: int, j: int|
        0 <= i < pairs.len() && 0 <= j < pairs.len() && i != j ==> #[trigger] pairs[i].0@
            != #[trigger] pairs[j].0@
}

/// A map from MAC address to a value. Each MAC occurs at most once.
pub struct MacMap<V> {
    pairs: Vec<(String, V)>,
    contents: Ghost<Map<Seq<char>, V>>,
}

impl<V> MacMap<V> {
    #[verifier::type_invariant]
    spec fn well_formed(self) -> bool {
        pairs_match(self.pairs@, self.contents@)
    }

    /// The map's contents, keyed by the MAC's characters.
    pub closed spec fn view(&self) -> Map<Seq<char>, V> {
        self.contents@
    }

    /// The pairs in the order they were first inserted.
    pub closed spec fn pair_seq(&self) -> Seq<(String, V)> {
        self.pairs@
    }

    pub fn new() -> (m: MacMap<V>)
        ensures
            m@ == Map::<Seq<char>, V>::empty(),
    {
        MacMap { pairs: Vec::new(), contents: Ghost(Map::empty()) }
    }

    /// The pairs of the map, in the order their keys were first inserted.
    pub fn pairs(&self) -> (p: &Vec<(String, V)>)
        ensures
            p@ == self.pair_seq(),
            pairs_match(p@, self@),
    {
        proof {
            use_type_invariant(self);
        }
        &self.pairs
    }

    pub fn len(&self) -> (n: usize)
        ensures
            n == self@.dom().len(),
            self@.dom().finite(),
    {
        proof {
            use_type_invariant(self);
            self.lemma_len();
        }
        self.pairs.len()
    }

    proof fn lemma_len(&self)
        requires
            pairs_match(self.pairs@, self.contents@),
        ensures
            self.contents@.dom().finite(),
            self.contents@.dom().len() == self.pairs@.len(),
    {
        let keys = self.pairs@.map_values(|p: (String, V)| p.0@);
        assert(keys.to_set() =~= self.contents@.dom()) by {
            assert forall|k: Seq<char>| #[trigger] keys.to_set().contains(k) <==> self.contents@.dom().contains(k) by {
                if self.contents@.dom().contains(k) {
                    let i = choose|i: int| 0 <= i < self.pairs@.len() && #[trigger] self.pairs@[i].0@ == k;
                    assert(keys[i] == k);
                }
                if keys.to_set().contains(k) {
                    let i = choose|i: int| 0 <= i < keys.len() && keys[i] == k;
                    assert(self.pairs@[i].0@ == k);
                }
            }
        }
        assert(keys.no_duplicates()) by {
            assert forall|i: int, j: int| 0 <= i < keys.len() && 0 <= j < keys.len() && i != j implies keys[i] != keys[j] by {
                assert(self.pairs@[i].0@ != self.pairs@[j].0@);
            }
        }
        keys.unique_seq_to_set();
    }

    /// The index of `key`, or `None` when the map does not hold it.
    fn position(&self, key: &String) -> (r: Option<usize>)
        ensures
            match r {
                Some(i) => i < self.pairs@.len() && self.pairs@[i as int].0@ == key@,
                None => !self@.contains_key(key@),
            },
    {
        proof {
            use_type_invariant(self);
        }
        let mut i: usize = 0;
        while i < self.pairs.len()
            invariant
                i <= self.pairs@.len(),
                forall|j: int| 0 <= j < i ==> #[trigger] self.pairs@[j].0@ != key@,
            decreases self.pairs@.len() - i,
        {
            if self.pairs[i].0 == *key {
                return Some(i);
            }
            i = i + 1;
        }
        None
    }

    pub fn contains_key(&self, key: &String) -> (b: bool)
        ensures
            b == self@.contains_key(key@),
    {
        proof {
            use_type_invariant(self);
        }
        match self.position(key) {
            Some(i) => true,
            None => false,
        }
    }

    pub fn get(&self, key: &String) -> (r: Option<&V>)
        ensures
            match r {
                Some(v) => self@.contains_key(key@) && *v == self@[key@],
                None => !self@.contains_key(key@),
            },
    {
        proof {
            use_type_invariant(self);
        }
        match self.position(key) {
            Some(i) => Some(&self.pairs[i].1),
            None => None,
        }
    }

    /// Sets the value of `key`, replacing any value it had.
    pub fn insert(&mut self, key: String, value: V)
        ensures
            final(self)@ == old(self)@.insert(key@, value),
    {
        proof {
            use_type_invariant(&*self);
        }
        let pos = self.position(&key);
        let mut taken = MacMap::new();
        std::mem::swap(self, &mut taken);
        proof {
            use_type_invariant(&taken);
        }
        let MacMap { pairs: mut pairs, contents: Ghost(contents) } = taken;
        let ghost k = key@;
        let ghost old_pairs = pairs@;
        let ghost new_contents = contents.insert(k, value);
        match pos {
            Some(i) => {
                pairs.set(i, (key, value));
                assert forall|j: int| 0 <= j < pairs@.len() implies #[trigger] new_contents.contains_key(pairs@[j].0@)
                    && new_contents[pairs@[j].0@] == pairs@[j].1 by {
                    if j != i {
                        assert(old_pairs[j].0@ != old_pairs[i as int].0@);
                    }
                }
                assert forall|k2: Seq<char>| #[trigger] new_contents.contains_key(k2) implies exists|j: int|
                    0 <= j < pairs@.len() && #[trigger] pairs@[j].0@ == k2 by {
                    if k2 == k {
                        assert(pairs@[i as int].0@ == k2);
                    } else {
                        let j = choose|j: int| 0 <= j < old_pairs.len() && #[trigger] old_pairs[j].0@ == k2;
                        assert(pairs@[j].0@ == k2);
                    }
                }
                assert forall|a: int, b: int|
                    0 <= a < pairs@.len() && 0 <= b < pairs@.len() && a != b
                        implies #[trigger] pairs@[a].0@ != #[trigger] pairs@[b].0@ by {
                    assert(old_pairs[a].0@ != old_pairs[b].0@);
                }
            },
            None => {
                pairs.push((key, value));
                assert forall|j: int| 0 <= j < pairs@.len() implies #[trigger] new_contents.contains_key(pairs@[j].0@)
                    && new_contents[pairs@[j].0@] == pairs@[j].1 by {
                    if j < old_pairs.len() {
                        assert(old_pairs[j].0@ != k);
                    }
                }
                assert forall|k2: Seq<char>| #[trigger] new_contents.contains_key(k2) implies exists|j: int|
                    0 <= j < pairs@.len() && #[trigger] pairs@[j].0@ == k2 by {
                    if k2 == k {
                        assert(pairs@[old_pairs.len() as int].0@ == k2);
                    } else {
                        let j = choose|j: int| 0 <= j < old_pairs.len() && #[trigger] old_pairs[j].0@ == k2;
                        assert(pairs@[j].0@ == k2);
                    }
                }
                assert forall|a: int, b: int|
                    0 <= a < pairs@.len() && 0 <= b < pairs@.len() && a != b
                        implies #[trigger] pairs@[a].0@ != #[trigger] pairs@[b].0@ by {
                    if a < old_pairs.len() && b < old_pairs.len() {
                        assert(old_pairs[a].0@ != old_pairs[b].0@);
                    } else if a < old_pairs.len() {
                        assert(old_pairs[a].0@ != k);
                    } else {
                        assert(old_pairs[b].0@ != k);
                    }
                }
            },
        }
        assert(pairs_match(pairs@, new_contents));
        *self = MacMap { pairs, contents: Ghost(new_contents) };
    }

    /// Removes `key`, giving back the value it had.
    pub fn remove(&mut self, key: &String) -> (r: Option<V>)
        ensures
            final(self)@ == old(self)@.remove(key@),
            match r {
                Some(v) => old(self)@.contains_key(key@) && v == old(self)@[key@],
                None => !old(self)@.contains_key(key@),
            },
    {
        proof {
            use_type_invariant(&*self);
        }
        let pos = self.position(key);
        match pos {
            None => {
                proof {
                    assert(self@.remove(key@) =~= self@);
                }
                None
            },
            Some(i) => {
                let mut taken = MacMap::new();
                std::mem::swap(self, &mut taken);
                proof {
                    use_type_invariant(&taken);
                }
                let MacMap { pairs: mut pairs, contents: Ghost(contents) } = taken;
                let ghost k = key@;
                let ghost old_pairs = pairs@;
                let ghost new_contents = contents.remove(k);
                let (_, v) = pairs.remove(i);
                assert(pairs@ == old_pairs.remove(i as int));
                assert(contents.contains_key(old_pairs[i as int].0@));
                assert forall|j: int| 0 <= j < pairs@.len() implies #[trigger] new_contents.contains_key(pairs@[j].0@)
                    && new_contents[pairs@[j].0@] == pairs@[j].1 by {
                    if j < i {
                        assert(pairs@[j] == old_pairs[j]);
                        assert(old_pairs[j].0@ != old_pairs[i as int].0@);
                    } else {
                        assert(pairs@[j] == old_pairs[j + 1]);
                        assert(old_pairs[j + 1].0@ != old_pairs[i as int].0@);
                    }
                }
                assert forall|k2: Seq<char>| #[trigger] new_contents.contains_key(k2) implies exists|j: int|
                    0 <= j < pairs@.len() && #[trigger] pairs@[j].0@ == k2 by {
                    let j = choose|j: int| 0 <= j < old_pairs.len() && #[trigger] old_pairs[j].0@ == k2;
                    assert(j != i);
                    if j < i {
                        assert(pairs@[j].0@ == k2);
                    } else {
                        assert(pairs@[j - 1].0@ == k2);
                    }
                }
                assert forall|a: int, b: int|
                    0 <= a < pairs@.len() && 0 <= b < pairs@.len() && a != b
                        implies #[trigger] pairs@[a].0@ != #[trigger] pairs@[b].0@ by {
                    let oa = if a < i { a } else { a + 1 };
                    let ob = if b < i { b } else { b + 1 };
                    assert(pairs@[a] == old_pairs[oa]);
                    assert(pairs@[b] == old_pairs[ob]);
                    assert(old_pairs[oa].0@ != old_pairs[ob].0@);
                }
                assert(pairs_match(pairs@, new_contents));
                *self = MacMap { pairs, contents: Ghost(new_contents) };
                Some(v)
            },
        }
    }

    /// Removes every key.
    pub fn clear(&mut self)
        ensures
            final(self)@ == Map::<Seq<char>, V>::empty(),
    {
        *self = MacMap::new();
    }
}

} // verus!
