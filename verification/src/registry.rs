//! The capture registry: a slot-keyed table of every source's capture cell,
//! populated on source creation, erased on source destruction, and drained
//! exactly once at module teardown so no capture resource outlives the
//! host.  A dead key is how a departed source looks to late readers.

use vstd::prelude::*;
use crate::session::CaptureCell;
use crate::slots::{Arena, Slot, SlotKey};

verus! {

/// The number of registered cells that hold a running capture session.
pub open spec fn spec_active(s: Seq<Slot<CaptureCell>>) -> nat
    decreases s.len(),
{
    if s.len() == 0 {
        0
    } else {
        spec_active(s.drop_last()) + if s.last().value is Some
            && s.last().value->Some_0.session is Some {
            1nat
        } else {
            0nat
        }
    }
}

/// The cells a drain stops, in slot order, each with its session cleared.
pub open spec fn spec_drained(s: Seq<Slot<CaptureCell>>) -> Seq<CaptureCell>
    decreases s.len(),
{
    if s.len() == 0 {
        Seq::empty()
    } else {
        spec_drained(s.drop_last()) + if s.last().value is Some {
            seq![CaptureCell { session: None, ..s.last().value->Some_0 }]
        } else {
            Seq::<CaptureCell>::empty()
        }
    }
}

/// The registry of capture cells.
pub struct CaptureRegistry {
    pub cells: Arena<CaptureCell>,
}

impl CaptureRegistry {
    pub open spec fn wf(self) -> bool {
        self.cells.wf()
    }

    /// The key names a registered cell.
    pub open spec fn live(self, k: SlotKey) -> bool {
        self.cells.live(k)
    }

    /// The key can never name a cell again.
    pub open spec fn dead_forever(self, k: SlotKey) -> bool {
        self.cells.dead_forever(k)
    }

    /// The cell under a live key.
    pub open spec fn cell(self, k: SlotKey) -> CaptureCell
        recommends
            self.live(k),
    {
        self.cells.at(k)
    }

    pub fn new() -> (r: CaptureRegistry)
        ensures
            r.wf(),
            r.cells.slots@.len() == 0,
    {
        CaptureRegistry { cells: Arena::new() }
    }

    /// Registers a source's cell and returns its fresh key; nothing else is
    /// disturbed.
    pub fn register(&mut self, cell: CaptureCell) -> (k: SlotKey)
        requires
            old(self).wf(),
            old(self).cells.slots@.len() < usize::MAX,
        ensures
            final(self).wf(),
            !old(self).live(k),
            final(self).live(k),
            final(self).cell(k) == cell,
            forall|k2: SlotKey| old(self).live(k2) ==> final(self).live(k2)
                && final(self).cell(k2) == old(self).cell(k2),
            forall|k2: SlotKey| k2 != k && !old(self).live(k2) ==> !final(self).live(k2),
            forall|k2: SlotKey| old(self).dead_forever(k2) ==> final(self).dead_forever(k2),
    {
        self.cells.insert(cell)
    }

    /// Erases a source's entry on its destruction; the key is dead for
    /// good.
    pub fn unregister(&mut self, k: SlotKey) -> (was: bool)
        requires
            old(self).wf(),
        ensures
            final(self).wf(),
            was == old(self).live(k),
            !final(self).live(k),
            was ==> final(self).dead_forever(k),
            forall|k2: SlotKey| old(self).live(k2) && k2 != k ==> final(self).live(k2)
                && final(self).cell(k2) == old(self).cell(k2),
            forall|k2: SlotKey| !old(self).live(k2) ==> !final(self).live(k2),
            forall|k2: SlotKey| old(self).dead_forever(k2) ==> final(self).dead_forever(k2),
    {
        self.cells.remove(k)
    }

    /// A late reader's view: the cell under the key, or nothing once the
    /// source is gone.
    pub fn get(&self, k: SlotKey) -> (r: Option<&CaptureCell>)
        ensures
            match r {
                Some(c) => self.live(k) && *c == self.cell(k),
                None => !self.live(k),
            },
    {
        self.cells.get(k)
    }

    /// Mutable access to a registered cell, for its owning worker.
    pub fn cell_mut(&mut self, k: SlotKey) -> (c: &mut CaptureCell)
        requires
            old(self).wf(),
            old(self).live(k),
        ensures
            final(self).wf(),
            *c == old(self).cell(k),
            final(self).live(k),
            final(self).cell(k) == *final(c),
            forall|k2: SlotKey| old(self).live(k2) && k2 != k ==> final(self).live(k2)
                && final(self).cell(k2) == old(self).cell(k2),
            forall|k2: SlotKey| !old(self).live(k2) ==> !final(self).live(k2),
            forall|k2: SlotKey| old(self).dead_forever(k2) ==> final(self).dead_forever(k2),
    {
        self.cells.get_mut(k)
    }

    /// How many registered cells hold a running capture session.
    pub fn count(&self) -> (n: usize)
        ensures
            n == spec_active(self.cells.slots@),
    {
        let len = self.cells.slot_len();
        let mut n: usize = 0;
        let mut i: usize = 0;
        while i < len
            invariant
                len == self.cells.slots@.len(),
                i <= len,
                n as nat == spec_active(self.cells.slots@.take(i as int)),
                n <= i,
            decreases len - i,
        {
            proof {
                assert(self.cells.slots@.take(i + 1).drop_last() =~= self.cells.slots@.take(
                    i as int,
                ));
                assert(self.cells.slots@.take(i + 1).last() == self.cells.slots@[i as int]);
            }
            let occupied = self.cells.occupied_at(i);
            if occupied {
                let has_session = match self.cells.get(self.cells.key_at(i)) {
                    Some(c) => c.session.is_some(),
                    None => false,
                };
                if has_session {
                    n = n + 1;
                }
            }
            i = i + 1;
        }
        proof {
            assert(self.cells.slots@.take(len as int) =~= self.cells.slots@);
        }
        n
    }

    /// Drains the registry at module teardown: every still-registered cell
    /// is vacated with its session stopped, and the stopped cells are
    /// returned in slot order.  Every previously valid key is dead for
    /// good; a source created afterwards registers anew.
    pub fn drain(&mut self) -> (stopped: Vec<CaptureCell>)
        requires
            old(self).wf(),
        ensures
            final(self).wf(),
            stopped@ == spec_drained(old(self).cells.slots@),
            forall|i: int| 0 <= i < stopped@.len() ==> (#[trigger] stopped@[i]).session is None,
            forall|k: SlotKey| !final(self).live(k),
            forall|k: SlotKey| old(self).live(k) ==> final(self).dead_forever(k),
            forall|k: SlotKey| old(self).dead_forever(k) ==> final(self).dead_forever(k),
    {
        let len = self.cells.slot_len();
        let mut stopped: Vec<CaptureCell> = Vec::new();
        let mut i: usize = 0;
        while i < len
            invariant
                self.cells.wf(),
                len == self.cells.slots@.len(),
                len == old(self).cells.slots@.len(),
                i <= len,
                stopped@ == spec_drained(old(self).cells.slots@.take(i as int)),
                forall|j: int| 0 <= j < stopped@.len()
                    ==> (#[trigger] stopped@[j]).session is None,
                forall|j: int| 0 <= j < i ==> (#[trigger] self.cells.slots@[j]).value is None,
                forall|j: int| i <= j < len
                    ==> self.cells.slots@[j] == old(self).cells.slots@[j],
                forall|k: SlotKey| old(self).live(k) && (k.index as int) < i
                    ==> self.cells.dead_forever(k),
                forall|k: SlotKey| old(self).dead_forever(k) ==> self.cells.dead_forever(k),
            decreases len - i,
        {
            proof {
                assert(old(self).cells.slots@.take(i + 1).drop_last() =~= old(
                    self,
                ).cells.slots@.take(i as int));
                assert(old(self).cells.slots@.take(i + 1).last() == old(self).cells.slots@[
                    i as int
                ]);
            }
            if self.cells.occupied_at(i) {
                let mut c = self.cells.vacate_at(i);
                c.stop();
                stopped.push(c);
            }
            i = i + 1;
        }
        proof {
            assert(old(self).cells.slots@.take(len as int) =~= old(self).cells.slots@);
        }
        stopped
    }
}

} // verus!
