//! The per-key sound table: key name -> sound file path.

use vstd::prelude::*;

verus! {

/// Per-key sound mappings, from key name (such as "KeyA" or "Space") to the
/// path of a sound file. Each key name occurs at most once.
#[derive(Debug)]
pub struct KeySounds {
    entries: Vec<(String, String)>,
}

impl KeySounds {
    /// No key name occurs twice.
    #[verifier::type_invariant]
    spec fn keys_distinct(self) -> bool {
        forall|i: int, j: int|
            0 <= i < j < self.entries@.len() ==> #[trigger] self.entries@[i].0@
                != #[trigger] self.entries@[j].0@
    }

    spec fn has(self, k: Seq<char>) -> bool {
        exists|i: int| 0 <= i < self.entries@.len() && #[trigger] self.entries@[i].0@ == k
    }

    spec fn index_of(self, k: Seq<char>) -> int {
        choose|i: int| 0 <= i < self.entries@.len() && #[trigger] self.entries@[i].0@ == k
    }

    proof fn lemma_index_of(self, i: int)
        requires
            self.keys_distinct(),
            0 <= i < self.entries@.len(),
        ensures
            self.index_of(self.entries@[i].0@) == i,
            self@.contains_key(self.entries@[i].0@),
            self@[self.entries@[i].0@] == self.entries@[i].1@,
    {
        let k = self.entries@[i].0@;
        assert(self.has(k));
        let j = self.index_of(k);
        assert(self.entries@[j].0@ == k);
        if j < i {
            assert(self.entries@[j].0@ != self.entries@[i].0@);
        } else if i < j {
            assert(self.entries@[i].0@ != self.entries@[j].0@);
        }
    }

    /// Creates an empty table.
    pub fn new() -> (m: Self)
        ensures
            m@ == Map::<Seq<char>, Seq<char>>::empty(),
    {
        let m = KeySounds { entries: Vec::new() };
        assert(m@ =~= Map::<Seq<char>, Seq<char>>::empty());
        m
    }

    /// Where `key` stands in the table, if it does.
    fn find(&self, key: &String) -> (r: Option<usize>)
        ensures
            r matches Some(i) ==> i < self.entries@.len() && self.entries@[i as int].0@ == key@,
            r is None ==> !self@.contains_key(key@),
    {
        let mut i: usize = 0;
        while i < self.entries.len()
            invariant
                i <= self.entries@.len(),
                forall|j: int| 0 <= j < i ==> #[trigger] self.entries@[j].0@ != key@,
            decreases self.entries.len() - i,
        {
            if self.entries[i].0 == *key {
                return Some(i);
            }
            i = i + 1;
        }
        None
    }

    /// The sound assigned to `key`, if any.
    pub fn get(&self, key: &str) -> (r: Option<&String>)
        ensures
            r is Some == self@.contains_key(key@),
            r matches Some(v) ==> v@ == self@[key@],
    {
        proof {
            use_type_invariant(self);
        }
        let k = key.to_owned();
        match self.find(&k) {
            Some(i) => {
                proof {
                    self.lemma_index_of(i as int);
                }
                Some(&self.entries[i].1)
            },
            None => None,
        }
    }

    /// Assigns `value` to `key`, replacing any earlier assignment.
    pub fn insert(&mut self, key: String, value: String)
        ensures
            final(self)@ == old(self)@.insert(key@, value@),
    {
        proof {
            use_type_invariant(&*self);
        }
        let ghost before = *self;
        let found = self.find(&key);
        let mut entries: Vec<(String, String)> = Vec::new();
        std::mem::swap(&mut entries, &mut self.entries);
        match found {
            Some(i) => {
                let ghost k = key@;
                entries.set(i, (key, value));
                let ghost after = KeySounds { entries };
                assert(after.keys_distinct()) by {
                    assert forall|a: int, b: int| 0 <= a < b < entries@.len() implies #[trigger] entries@[a].0@
                        != #[trigger] entries@[b].0@ by {
                        if a != i && b != i {
                            assert(before.entries@[a].0@ != before.entries@[b].0@);
                        } else if a == i {
                            assert(before.entries@[i as int].0@ != before.entries@[b].0@);
                        } else {
                            assert(before.entries@[a].0@ != before.entries@[i as int].0@);
                        }
                    }
                }
                assert(after@ =~= before@.insert(k, value@)) by {
                    assert forall|x: Seq<char>| #[trigger] after@.contains_key(x) == before@.insert(k, value@).contains_key(x) by {
                        if after.has(x) {
                            let j = after.index_of(x);
                            if j != i {
                                before.lemma_index_of(j);
                            }
                        }
                        if before.has(x) {
                            let j = before.index_of(x);
                            after.lemma_index_of(j);
                        }
                    }
                    assert forall|x: Seq<char>| #[trigger] after@.contains_key(x) implies after@[x] == before@.insert(k, value@)[x] by {
                        let j = after.index_of(x);
                        after.lemma_index_of(j);
                        if j != i {
                            before.lemma_index_of(j);
                        }
                    }
                }
                self.entries = entries;
            },
            None => {
                let ghost k = key@;
                entries.push((key, value));
                let ghost after = KeySounds { entries };
                let ghost n = before.entries@.len();
                assert(after.keys_distinct()) by {
                    assert forall|a: int, b: int| 0 <= a < b < entries@.len() implies #[trigger] entries@[a].0@
                        != #[trigger] entries@[b].0@ by {
                        if b < n {
                            assert(before.entries@[a].0@ != before.entries@[b].0@);
                        } else {
                            before.lemma_index_of(a);
                        }
                    }
                }
                assert(after@ =~= before@.insert(k, value@)) by {
                    assert forall|x: Seq<char>| #[trigger] after@.contains_key(x) == before@.insert(k, value@).contains_key(x) by {
                        if after.has(x) {
                            let j = after.index_of(x);
                            if j < n {
                                before.lemma_index_of(j);
                            }
                        }
                        if before.has(x) {
                            let j = before.index_of(x);
                            after.lemma_index_of(j);
                        }
                        if x == k {
                            after.lemma_index_of(n as int);
                        }
                    }
                    assert forall|x: Seq<char>| #[trigger] after@.contains_key(x) implies after@[x] == before@.insert(k, value@)[x] by {
                        let j = after.index_of(x);
                        after.lemma_index_of(j);
                        if j < n {
                            before.lemma_index_of(j);
                        }
                    }
                }
                self.entries = entries;
            },
        }
    }

    /// Removes the assignment of `key`, returning the sound it had.
    pub fn remove(&mut self, key: &str) -> (r: Option<String>)
        ensures
            final(self)@ == old(self)@.remove(key@),
            r is Some == old(self)@.contains_key(key@),
            r matches Some(v) ==> v@ == old(self)@[key@],
    {
        proof {
            use_type_invariant(&*self);
        }
        let ghost before = *self;
        let k = key.to_owned();
        match self.find(&k) {
            Some(i) => {
                let mut entries: Vec<(String, String)> = Vec::new();
                std::mem::swap(&mut entries, &mut self.entries);
                let (_, old_value) = entries.remove(i);
                proof {
                    before.lemma_index_of(i as int);
                }
                let ghost after = KeySounds { entries };
                assert(after.keys_distinct()) by {
                    assert forall|a: int, b: int| 0 <= a < b < entries@.len() implies #[trigger] entries@[a].0@
                        != #[trigger] entries@[b].0@ by {
                        let a0 = if a < i { a } else { a + 1 };
                        let b0 = if b < i { b } else { b + 1 };
                        assert(before.entries@[a0].0@ != before.entries@[b0].0@);
                    }
                }
                assert(after@ =~= before@.remove(k@)) by {
                    assert forall|x: Seq<char>| #[trigger] after@.contains_key(x) == before@.remove(k@).contains_key(x) by {
                        if after.has(x) {
                            let j = after.index_of(x);
                            let j0 = if j < i { j } else { j + 1 };
                            before.lemma_index_of(j0);
                            assert(before.entries@[j0].0@ == x);
                            before.lemma_index_of(i as int);
                        }
                        if before.has(x) && x != k@ {
                            let j = before.index_of(x);
                            if j < i {
                                after.lemma_index_of(j);
                            } else if j > i {
                                after.lemma_index_of(j - 1);
                            }
                        }
                    }
                    assert forall|x: Seq<char>| #[trigger] after@.contains_key(x) implies after@[x] == before@.remove(k@)[x] by {
                        let j = after.index_of(x);
                        after.lemma_index_of(j);
                        let j0 = if j < i { j } else { j + 1 };
                        before.lemma_index_of(j0);
                    }
                }
                self.entries = entries;
                Some(old_value)
            },
            None => {
                assert(before@.remove(k@) =~= before@);
                None
            },
        }
    }

    /// The key names of the table, each once, in no particular order.
    pub fn keys(&self) -> (r: Vec<String>)
        ensures
            forall|i: int, j: int| 0 <= i < j < r@.len() ==> #[trigger] r@[i]@ != #[trigger] r@[j]@,
            forall|k: Seq<char>| #[trigger] self@.contains_key(k) <==> exists|i: int| 0 <= i < r@.len() && #[trigger] r@[i]@ == k,
    {
        proof {
            use_type_invariant(self);
        }
        let mut r: Vec<String> = Vec::new();
        let mut i: usize = 0;
        while i < self.entries.len()
            invariant
                self.keys_distinct(),
                i <= self.entries@.len(),
                r@.len() == i,
                forall|j: int| 0 <= j < i ==> #[trigger] r@[j]@ == self.entries@[j].0@,
            decreases self.entries.len() - i,
        {
            r.push(self.entries[i].0.clone());
            i = i + 1;
        }
        assert forall|k: Seq<char>| #[trigger] self@.contains_key(k) <==> exists|i: int| 0 <= i < r@.len() && #[trigger] r@[i]@ == k by {
            if self@.contains_key(k) {
                let j = self.index_of(k);
                assert(r@[j]@ == k);
            }
            if exists|i: int| 0 <= i < r@.len() && #[trigger] r@[i]@ == k {
                let j = choose|i: int| 0 <= i < r@.len() && #[trigger] r@[i]@ == k;
                self.lemma_index_of(j);
            }
        }
        r
    }
}

impl Clone for KeySounds {
    /// A copy of the table, with the same assignments.
    fn clone(&self) -> (r: Self)
        ensures
            r@ == self@,
    {
        proof {
            use_type_invariant(self);
        }
        let mut entries: Vec<(String, String)> = Vec::new();
        let mut i: usize = 0;
        while i < self.entries.len()
            invariant
                i <= self.entries@.len(),
                entries@ == self.entries@.subrange(0, i as int),
            decreases self.entries.len() - i,
        {
            let key = self.entries[i].0.clone();
            let value = self.entries[i].1.clone();
            entries.push((key, value));
            assert(entries@ =~= self.entries@.subrange(0, i + 1));
            i = i + 1;
        }
        assert(entries@ =~= self.entries@);
        KeySounds { entries }
    }
}

impl View for KeySounds {
    type V = Map<Seq<char>, Seq<char>>;

    closed spec fn view(&self) -> Map<Seq<char>, Seq<char>> {
        Map::new(|k: Seq<char>| self.has(k), |k: Seq<char>| self.entries@[self.index_of(k)].1@)
    }
}

} // verus!
