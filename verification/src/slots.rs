//! A slot-keyed arena with generational keys: insert returns a stable
//! (index, generation) key, and a freed-then-reused slot never aliases an
//! old key, because removal bumps the slot's generation (or retires the slot
//! for good once the generation counter is exhausted).
//!
//! Both registries of the engine — the listener table of the event bus and
//! the capture registry — are instances of this arena.

use vstd::prelude::*;

verus! {

/// A stable key into an arena: the slot index and the generation the slot
/// had when the entry was inserted.
#[derive(Clone, Copy, PartialEq, Eq, Structural, Debug, Hash)]
pub struct SlotKey {
    pub index: usize,
    pub generation: u64,
}

/// One slot: its current generation and its occupant, if any.
#[derive(Clone, PartialEq, Eq, Structural, Debug)]
pub struct Slot<V> {
    pub generation: u64,
    pub value: Option<V>,
}

/// The arena: a slot vector and a free list of vacant, reusable slots.
pub struct Arena<V> {
    pub slots: Vec<Slot<V>>,
    pub free: Vec<usize>,
}

impl<V> Arena<V> {
    /// Every free-list entry names a vacant slot whose generation can still
    /// be bumped, and no slot is listed twice.
    pub open spec fn wf(self) -> bool {
        &&& forall|j: int| 0 <= j < self.free@.len() ==> {
            &&& (#[trigger] self.free@[j]) < self.slots@.len()
            &&& self.slots@[self.free@[j] as int].value is None
            &&& self.slots@[self.free@[j] as int].generation < u64::MAX
        }
        &&& forall|j1: int, j2: int| 0 <= j1 < j2 < self.free@.len()
                ==> self.free@[j1] != self.free@[j2]
    }

    /// The key currently names an occupied slot.
    pub open spec fn live(self, k: SlotKey) -> bool {
        &&& (k.index as int) < self.slots@.len()
        &&& self.slots@[k.index as int].generation == k.generation
        &&& self.slots@[k.index as int].value is Some
    }

    /// The value under a live key.
    pub open spec fn at(self, k: SlotKey) -> V
        recommends
            self.live(k),
    {
        self.slots@[k.index as int].value->Some_0
    }

    /// The key can never name an occupant again: either its slot's
    /// generation has moved past it, or the slot was retired at the final
    /// generation.
    pub open spec fn dead_forever(self, k: SlotKey) -> bool {
        &&& (k.index as int) < self.slots@.len()
        &&& {
            ||| self.slots@[k.index as int].generation > k.generation
            ||| (k.generation == u64::MAX
                && self.slots@[k.index as int].generation == u64::MAX
                && self.slots@[k.index as int].value is None)
        }
    }

    /// A key past its slot's generation is not live: a freed slot, once
    /// reused, never aliases the old key.
    pub proof fn lemma_dead_key_not_live(self, k: SlotKey)
        ensures
            self.dead_forever(k) ==> !self.live(k),
    {
    }

    pub fn new() -> (a: Arena<V>)
        ensures
            a.wf(),
            a.slots@.len() == 0,
            a.free@.len() == 0,
    {
        Arena { slots: Vec::new(), free: Vec::new() }
    }

    pub fn slot_len(&self) -> (n: usize)
        ensures
            n == self.slots@.len(),
    {
        self.slots.len()
    }

    /// Whether the slot at `i` holds a value.
    pub fn occupied_at(&self, i: usize) -> (r: bool)
        requires
            i < self.slots@.len(),
        ensures
            r == (self.slots@[i as int].value is Some),
    {
        self.slots[i].value.is_some()
    }

    /// The key of the occupant at slot `i`.
    pub fn key_at(&self, i: usize) -> (k: SlotKey)
        requires
            i < self.slots@.len(),
            self.slots@[i as int].value is Some,
        ensures
            self.live(k),
            k.index == i,
    {
        SlotKey { index: i, generation: self.slots[i].generation }
    }

    pub fn contains(&self, k: SlotKey) -> (r: bool)
        ensures
            r == self.live(k),
    {
        k.index < self.slots.len()
            && self.slots[k.index].generation == k.generation
            && self.slots[k.index].value.is_some()
    }

    /// Inserts a value, reusing a vacant slot when one is free.  The
    /// returned key is fresh: it was not live before, and no other dead key
    /// comes alive.
    pub fn insert(&mut self, v: V) -> (k: SlotKey)
        requires
            old(self).wf(),
            old(self).slots@.len() < usize::MAX,
        ensures
            final(self).wf(),
            !old(self).live(k),
            final(self).live(k),
            final(self).at(k) == v,
            (k.index as int) < final(self).slots@.len(),
            old(self).slots@.len() <= final(self).slots@.len(),
            final(self).slots@.len() <= old(self).slots@.len() + 1,
            forall|i: int| 0 <= i < old(self).slots@.len() && i != k.index
                ==> final(self).slots@[i] == old(self).slots@[i],
            final(self).slots@[k.index as int].generation == k.generation,
            forall|k2: SlotKey| k2 != k && !old(self).live(k2) ==> !final(self).live(k2),
            forall|k2: SlotKey| old(self).live(k2) ==> final(self).live(k2)
                && final(self).at(k2) == old(self).at(k2),
            forall|k2: SlotKey| old(self).dead_forever(k2) ==> final(self).dead_forever(k2),
    {
        match self.free.pop() {
            Some(i) => {
                let generation = self.slots[i].generation;
                let slot = &mut self.slots[i];
                slot.value = Some(v);
                SlotKey { index: i, generation }
            },
            None => {
                let i = self.slots.len();
                self.slots.push(Slot { generation: 0, value: Some(v) });
                SlotKey { index: i, generation: 0 }
            },
        }
    }

    /// Empties the slot at `i` and returns its occupant.  The slot's
    /// generation is bumped so every key minted for the old occupant is dead
    /// for good; a slot at the final generation is retired instead of being
    /// put back on the free list.
    pub fn vacate_at(&mut self, i: usize) -> (v: V)
        requires
            old(self).wf(),
            i < old(self).slots@.len(),
            old(self).slots@[i as int].value is Some,
        ensures
            final(self).wf(),
            v == old(self).slots@[i as int].value->Some_0,
            final(self).slots@.len() == old(self).slots@.len(),
            final(self).slots@[i as int].value is None,
            forall|j: int| 0 <= j < old(self).slots@.len() && j != i
                ==> final(self).slots@[j] == old(self).slots@[j],
            forall|k2: SlotKey| old(self).live(k2) && k2.index != i ==> final(self).live(k2)
                && final(self).at(k2) == old(self).at(k2),
            forall|k2: SlotKey| old(self).live(k2) && k2.index == i
                ==> final(self).dead_forever(k2),
            forall|k2: SlotKey| !old(self).live(k2) ==> !final(self).live(k2),
            forall|k2: SlotKey| old(self).dead_forever(k2) ==> final(self).dead_forever(k2),
    {
        proof {
            assert(forall|j: int| 0 <= j < old(self).free@.len()
                ==> #[trigger] old(self).free@[j] != i);
        }
        let slot = &mut self.slots[i];
        let v = match slot.value.take() {
            Some(v) => v,
            None => vstd::pervasive::unreached(),
        };
        let g = slot.generation;
        if g < u64::MAX {
            slot.generation = g + 1;
        }
        if g < u64::MAX - 1 {
            self.free.push(i);
        }
        v
    }

    /// Removes the entry under `k`, if it is live.  Afterwards the key is
    /// dead for good.
    pub fn remove(&mut self, k: SlotKey) -> (was: bool)
        requires
            old(self).wf(),
        ensures
            final(self).wf(),
            was == old(self).live(k),
            !final(self).live(k),
            was ==> final(self).dead_forever(k),
            final(self).slots@.len() == old(self).slots@.len(),
            forall|j: int| 0 <= j < old(self).slots@.len() && j != k.index
                ==> final(self).slots@[j] == old(self).slots@[j],
            forall|k2: SlotKey| old(self).live(k2) && k2 != k ==> final(self).live(k2)
                && final(self).at(k2) == old(self).at(k2),
            forall|k2: SlotKey| !old(self).live(k2) ==> !final(self).live(k2),
            forall|k2: SlotKey| old(self).dead_forever(k2) ==> final(self).dead_forever(k2),
    {
        if self.contains(k) {
            let _ = self.vacate_at(k.index);
            true
        } else {
            false
        }
    }

    /// A shared borrow of the value under `k`, or `None` when the key is
    /// dead.
    pub fn get(&self, k: SlotKey) -> (r: Option<&V>)
        ensures
            match r {
                Some(v) => self.live(k) && *v == self.at(k),
                None => !self.live(k),
            },
    {
        if self.contains(k) {
            match &self.slots[k.index].value {
                Some(v) => Some(v),
                None => vstd::pervasive::unreached(),
            }
        } else {
            None
        }
    }

    /// A mutable borrow of the value at slot `i`; the slot's generation is
    /// untouched.
    pub fn value_at_mut(&mut self, i: usize) -> (r: &mut V)
        requires
            old(self).wf(),
            i < old(self).slots@.len(),
            old(self).slots@[i as int].value is Some,
        ensures
            final(self).wf(),
            *r == old(self).slots@[i as int].value->Some_0,
            final(self).slots@ == old(self).slots@.update(
                i as int,
                Slot {
                    generation: old(self).slots@[i as int].generation,
                    value: Some(*final(r)),
                },
            ),
    {
        proof {
            assert(forall|j: int| 0 <= j < old(self).free@.len()
                ==> #[trigger] old(self).free@[j] != i);
        }
        let slot = &mut self.slots[i];
        match &mut slot.value {
            Some(v) => v,
            None => vstd::pervasive::unreached(),
        }
    }

    /// A mutable borrow of the value under a live key.
    pub fn get_mut(&mut self, k: SlotKey) -> (r: &mut V)
        requires
            old(self).wf(),
            old(self).live(k),
        ensures
            final(self).wf(),
            *r == old(self).at(k),
            final(self).slots@ == old(self).slots@.update(
                k.index as int,
                Slot { generation: k.generation, value: Some(*final(r)) },
            ),
            final(self).live(k),
            final(self).at(k) == *final(r),
    {
        self.value_at_mut(k.index)
    }
}

} // verus!
