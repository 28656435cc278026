use vstd::prelude::*;
use crate::address::Address;

verus! {

/// A keyed store of records. Each address holds at most one record.
pub struct EntityStore<T> {
    keys: Vec<Address>,
    values: Vec<T>,
}

impl<T> View for EntityStore<T> {
    type V = Map<Address, T>;

    closed spec fn view(&self) -> Map<Address, T> {
        Map::new(
            |k: Address| self.keys@.contains(k),
            |k: Address| self.values@[self.keys@.index_of(k)],
        )
    }
}

impl<T> EntityStore<T> {
    /// Keys and records pair up, and no key occurs twice. `new` makes such a
    /// store and every method keeps it so.
    pub closed spec fn wf(&self) -> bool {
        &&& self.keys@.len() == self.values@.len()
        &&& self.keys@.no_duplicates()
    }

    proof fn lemma_view_at(&self, i: int)
        requires
            self.wf(),
            0 <= i < self.keys@.len(),
        ensures
            self@.contains_key(self.keys@[i]),
            self@[self.keys@[i]] == self.values@[i],
    {
        let k = self.keys@[i];
        assert(self.keys@.contains(k));
        let j = self.keys@.index_of(k);
        assert(0 <= j < self.keys@.len() && self.keys@[j] == k);
    }

    /// A store without records.
    pub fn new() -> (s: Self)
        ensures
            s.wf(),
            s@ == Map::<Address, T>::empty(),
    {
        let s = EntityStore { keys: Vec::new(), values: Vec::new() };
        assert(s@ =~= Map::<Address, T>::empty());
        s
    }

    /// The number of records held.
    pub fn len(&self) -> (n: usize)
        requires
            self.wf(),
        ensures
            self@.dom().finite(),
            n == self@.dom().len(),
    {
        proof {
            vstd::seq_lib::seq_to_set_is_finite(self.keys@);
            self.keys@.unique_seq_to_set();
            assert(self@.dom() =~= self.keys@.to_set());
        }
        self.keys.len()
    }

    fn position(&self, key: &Address) -> (r: Option<usize>)
        requires
            self.wf(),
        ensures
            match r {
                Some(i) => i < self.keys@.len() && self.keys@[i as int] == *key,
                None => !self.keys@.contains(*key),
            },
    {
        let mut i: usize = 0;
        while i < self.keys.len()
            invariant
                i <= self.keys@.len(),
                forall|j: int| 0 <= j < i ==> self.keys@[j] != *key,
            decreases self.keys@.len() - i,
        {
            if self.keys[i] == *key {
                return Some(i);
            }
            i += 1;
        }
        None
    }

    /// Whether a record exists at `key`.
    pub fn contains(&self, key: &Address) -> (r: bool)
        requires
            self.wf(),
        ensures
            r == self@.contains_key(*key),
    {
        self.position(key).is_some()
    }

    /// The record at `key`, if there is one.
    pub fn get(&self, key: &Address) -> (r: Option<&T>)
        requires
            self.wf(),
        ensures
            match r {
                Some(v) => self@.contains_key(*key) && *v == self@[*key],
                None => !self@.contains_key(*key),
            },
    {
        match self.position(key) {
            Some(i) => {
                proof {
                    self.lemma_view_at(i as int);
                }
                Some(&self.values[i])
            },
            None => None,
        }
    }

    /// Stores `value` at `key` unless the address is taken, and says whether it
    /// did.
    pub fn create(&mut self, key: Address, value: T) -> (created: bool)
        requires
            old(self).wf(),
        ensures
            final(self).wf(),
            created == !old(self)@.contains_key(key),
            created ==> final(self)@ == old(self)@.insert(key, value),
            !created ==> final(self)@ == old(self)@,
    {
        if self.position(&key).is_some() {
            return false;
        }
        self.keys.push(key);
        self.values.push(value);
        proof {
            assert(self.keys@.no_duplicates());
            assert forall|k: Address| #[trigger] self@.contains_key(k) <==> old(self)@.insert(key, value).contains_key(k) by {
                let n = old(self).keys@.len() as int;
                if old(self).keys@.contains(k) {
                    let j = old(self).keys@.index_of(k);
                    assert(self.keys@[j] == k);
                }
                if k == key {
                    assert(self.keys@[n] == k);
                }
                if self.keys@.contains(k) {
                    let j = self.keys@.index_of(k);
                    if j < n {
                        assert(old(self).keys@[j] == k);
                    }
                }
            }
            assert forall|k: Address| #[trigger] self@.contains_key(k) implies self@[k] == old(self)@.insert(key, value)[k] by {
                let j = self.keys@.index_of(k);
                self.lemma_view_at(j);
                if k != key {
                    old(self).lemma_view_at(j);
                }
            }
            assert(self@ =~= old(self)@.insert(key, value));
        }
        true
    }

    /// Overwrites the record at `key`, where there is one, and says whether it
    /// did.
    pub fn update(&mut self, key: &Address, value: T) -> (updated: bool)
        requires
            old(self).wf(),
        ensures
            final(self).wf(),
            updated == old(self)@.contains_key(*key),
            updated ==> final(self)@ == old(self)@.insert(*key, value),
            !updated ==> final(self)@ == old(self)@,
    {
        if !self.contains(key) {
            return false;
        }
        let record = self.get_mut(key);
        *record = value;
        true
    }

    /// A mutable borrow of the record at `key`, to change it in place.
    pub(crate) fn get_mut(&mut self, key: &Address) -> (r: &mut T)
        requires
            old(self).wf(),
            old(self)@.contains_key(*key),
        ensures
            *r == old(self)@[*key],
            final(self).wf(),
            final(self)@ == old(self)@.insert(*key, *final(r)),
    {
        let found = self.position(key);
        let i = found.unwrap();
        proof {
            old(self).lemma_view_at(i as int);
        }
        &mut self.values[i]
    }

    /// Removes the record at `key` and hands it back.
    pub fn delete(&mut self, key: &Address) -> (r: Option<T>)
        requires
            old(self).wf(),
        ensures
            final(self).wf(),
            match r {
                Some(v) => old(self)@.contains_key(*key) && v == old(self)@[*key]
                    && final(self)@ == old(self)@.remove(*key),
                None => !old(self)@.contains_key(*key) && final(self)@ == old(self)@,
            },
    {
        match self.position(key) {
            Some(i) => {
                proof {
                    old(self).lemma_view_at(i as int);
                }
                let _ = self.keys.swap_remove(i);
                let v = self.values.swap_remove(i);
                proof {
                    let n = old(self).keys@.len() as int;
                    assert(self.keys@.no_duplicates());
                    assert forall|k: Address| #[trigger] self@.contains_key(k) <==> old(self)@.remove(*key).contains_key(k) by {
                        if self.keys@.contains(k) {
                            let j = self.keys@.index_of(k);
                            if j == i {
                                assert(old(self).keys@[n - 1] == k);
                            } else {
                                assert(old(self).keys@[j] == k);
                            }
                        }
                        if old(self).keys@.contains(k) && k != *key {
                            let j = old(self).keys@.index_of(k);
                            if j == n - 1 {
                                assert(self.keys@[i as int] == k);
                            } else {
                                assert(self.keys@[j] == k);
                            }
                        }
                    }
                    assert forall|k: Address| #[trigger] self@.contains_key(k) implies self@[k] == old(self)@.remove(*key)[k] by {
                        let j = self.keys@.index_of(k);
                        self.lemma_view_at(j);
                        if j == i {
                            old(self).lemma_view_at(n - 1);
                        } else {
                            old(self).lemma_view_at(j);
                        }
                    }
                    assert(self@ =~= old(self)@.remove(*key));
                }
                Some(v)
            },
            None => None,
        }
    }
}

} // verus!
