//! Maps keyed by operation and value identifiers.
use vstd::prelude::*;
use crate::ids::{OpId, ValId};

verus! {

/// Map from operation identifiers to data, with one slot per operation of an IR.
pub struct OpMap<T> {
    store: Vec<Option<T>>,
}

impl<T> OpMap<T> {
    /// The slots, indexed by identifier.
    pub closed spec fn slots(&self) -> Seq<Option<T>> {
        self.store@
    }

    /// Number of slots.
    pub open spec fn spec_len(&self) -> nat {
        self.slots().len()
    }

    /// The data held for `id`, if any.
    pub open spec fn spec_get(&self, id: OpId) -> Option<T> {
        if id.0 < self.spec_len() {
            self.slots()[id.0 as int]
        } else {
            None
        }
    }

    /// Whether every slot holds data.
    pub open spec fn spec_is_filled(&self) -> bool {
        forall|i: int| 0 <= i < self.spec_len() ==> #[trigger] self.slots()[i] is Some
    }

    /// Creates a map of `n` empty slots.
    pub fn new_empty(n: usize) -> (r: Self)
        ensures
            r.spec_len() == n,
            forall|i: int| 0 <= i < n ==> #[trigger] r.slots()[i] is None,
    {
        let mut store: Vec<Option<T>> = Vec::new();
        let mut k: usize = 0;
        while k < n
            invariant
                k <= n,
                store@.len() == k,
                forall|i: int| 0 <= i < k ==> #[trigger] store@[i] is None,
            decreases n - k,
        {
            store.push(None);
            k = k + 1;
        }
        OpMap { store }
    }

    /// Creates a map from its slots.
    pub fn from_slots(store: Vec<Option<T>>) -> (r: Self)
        ensures
            r.slots() == store@,
    {
        OpMap { store }
    }

    /// Returns the number of slots.
    pub fn len(&self) -> (r: usize)
        ensures
            r == self.spec_len(),
    {
        self.store.len()
    }

    /// Returns the data held for `id`; `None` when its slot is empty or does not exist.
    pub fn get(&self, id: OpId) -> (r: Option<&T>)
        ensures
            match r {
                Some(x) => self.spec_get(id) == Some(*x),
                None => self.spec_get(id) is None,
            },
    {
        if (id.0 as usize) < self.store.len() {
            match &self.store[id.0 as usize] {
                Some(x) => Some(x),
                None => None,
            }
        } else {
            None
        }
    }

    /// Returns whether data is held for `id`.
    pub fn contains_key(&self, id: OpId) -> (r: bool)
        ensures
            r == self.spec_get(id) is Some,
    {
        match self.get(id) {
            Some(_) => true,
            None => false,
        }
    }

    /// Stores `value` for `id`, returning the data previously held there.
    pub fn insert(&mut self, id: OpId, value: T) -> (r: Option<T>)
        requires
            id.0 < old(self).spec_len(),
        ensures
            r == old(self).spec_get(id),
            final(self).slots() == old(self).slots().update(id.0 as int, Some(value)),
    {
        let mut slot = Some(value);
        std::mem::swap(&mut slot, &mut self.store[id.0 as usize]);
        slot
    }

    /// Removes and returns the data held for `id`.
    pub fn take(&mut self, id: OpId) -> (r: Option<T>)
        requires
            id.0 < old(self).spec_len(),
        ensures
            r == old(self).spec_get(id),
            final(self).slots() == old(self).slots().update(id.0 as int, None),
    {
        let mut slot = None;
        std::mem::swap(&mut slot, &mut self.store[id.0 as usize]);
        slot
    }

    /// Returns whether every slot holds data.
    pub fn is_filled(&self) -> (r: bool)
        ensures
            r == self.spec_is_filled(),
    {
        let mut k: usize = 0;
        while k < self.store.len()
            invariant
                k <= self.store@.len(),
                forall|i: int| 0 <= i < k ==> #[trigger] self.store@[i] is Some,
            decreases self.store@.len() - k,
        {
            if self.store[k].is_none() {
                return false;
            }
            k = k + 1;
        }
        true
    }
}

/// Map from value identifiers to data, with one slot per value of an IR.
pub struct ValMap<T> {
    store: Vec<Option<T>>,
}

impl<T> ValMap<T> {
    /// The slots, indexed by identifier.
    pub closed spec fn slots(&self) -> Seq<Option<T>> {
        self.store@
    }

    /// Number of slots.
    pub open spec fn spec_len(&self) -> nat {
        self.slots().len()
    }

    /// The data held for `id`, if any.
    pub open spec fn spec_get(&self, id: ValId) -> Option<T> {
        if id.0 < self.spec_len() {
            self.slots()[id.0 as int]
        } else {
            None
        }
    }

    /// Whether every slot holds data.
    pub open spec fn spec_is_filled(&self) -> bool {
        forall|i: int| 0 <= i < self.spec_len() ==> #[trigger] self.slots()[i] is Some
    }

    /// Creates a map of `n` empty slots.
    pub fn new_empty(n: usize) -> (r: Self)
        ensures
            r.spec_len() == n,
            forall|i: int| 0 <= i < n ==> #[trigger] r.slots()[i] is None,
    {
        let mut store: Vec<Option<T>> = Vec::new();
        let mut k: usize = 0;
        while k < n
            invariant
                k <= n,
                store@.len() == k,
                forall|i: int| 0 <= i < k ==> #[trigger] store@[i] is None,
            decreases n - k,
        {
            store.push(None);
            k = k + 1;
        }
        ValMap { store }
    }

    /// Creates a map from its slots.
    pub fn from_slots(store: Vec<Option<T>>) -> (r: Self)
        ensures
            r.slots() == store@,
    {
        ValMap { store }
    }

    /// Returns the number of slots.
    pub fn len(&self) -> (r: usize)
        ensures
            r == self.spec_len(),
    {
        self.store.len()
    }

    /// Returns the data held for `id`; `None` when its slot is empty or does not exist.
    pub fn get(&self, id: ValId) -> (r: Option<&T>)
        ensures
            match r {
                Some(x) => self.spec_get(id) == Some(*x),
                None => self.spec_get(id) is None,
            },
    {
        if (id.0 as usize) < self.store.len() {
            match &self.store[id.0 as usize] {
                Some(x) => Some(x),
                None => None,
            }
        } else {
            None
        }
    }

    /// Returns whether data is held for `id`.
    pub fn contains_key(&self, id: ValId) -> (r: bool)
        ensures
            r == self.spec_get(id) is Some,
    {
        match self.get(id) {
            Some(_) => true,
            None => false,
        }
    }

    /// Stores `value` for `id`, returning the data previously held there.
    pub fn insert(&mut self, id: ValId, value: T) -> (r: Option<T>)
        requires
            id.0 < old(self).spec_len(),
        ensures
            r == old(self).spec_get(id),
            final(self).slots() == old(self).slots().update(id.0 as int, Some(value)),
    {
        let mut slot = Some(value);
        std::mem::swap(&mut slot, &mut self.store[id.0 as usize]);
        slot
    }

    /// Removes and returns the data held for `id`.
    pub fn take(&mut self, id: ValId) -> (r: Option<T>)
        requires
            id.0 < old(self).spec_len(),
        ensures
            r == old(self).spec_get(id),
            final(self).slots() == old(self).slots().update(id.0 as int, None),
    {
        let mut slot = None;
        std::mem::swap(&mut slot, &mut self.store[id.0 as usize]);
        slot
    }

    /// Returns whether every slot holds data.
    pub fn is_filled(&self) -> (r: bool)
        ensures
            r == self.spec_is_filled(),
    {
        let mut k: usize = 0;
        while k < self.store.len()
            invariant
                k <= self.store@.len(),
                forall|i: int| 0 <= i < k ==> #[trigger] self.store@[i] is Some,
            decreases self.store@.len() - k,
        {
            if self.store[k].is_none() {
                return false;
            }
            k = k + 1;
        }
        true
    }
}

} // verus!
