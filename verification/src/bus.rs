//! The window-event hook and bus: a reference-counted hold on the global OS
//! hook, a bounded ingestion queue fed by the hook callback, and a fan-out
//! of each drained notification to every registered listener's mailbox.

use vstd::prelude::*;
use crate::slots::{Arena, SlotKey};

verus! {

/// One window lifecycle notification: the affected window's handle, or
/// nothing for a synthetic poke that forces a selection pass.
pub type HookEvent = Option<isize>;

/// One fan-out over a set of mailboxes: the event lands at the end of
/// every one of them.
pub open spec fn spec_fan_out(
    mails: Map<SlotKey, Seq<HookEvent>>,
    ev: HookEvent,
) -> Map<SlotKey, Seq<HookEvent>> {
    mails.map_values(|q: Seq<HookEvent>| q.push(ev))
}

/// Fan-out delivers to every registered listener, and removing one
/// listener silences exactly that listener: after a fan-out over the
/// mailboxes less one, the removed key has no mailbox while every other
/// listener still receives the event.
pub proof fn lemma_fan_out_independence(
    mails: Map<SlotKey, Seq<HookEvent>>,
    ev: HookEvent,
    removed: SlotKey,
)
    ensures
        forall|k: SlotKey| mails.dom().contains(k)
            ==> #[trigger] spec_fan_out(mails, ev)[k] == mails[k].push(ev),
        !spec_fan_out(mails.remove(removed), ev).dom().contains(removed),
        forall|k: SlotKey| mails.dom().contains(k) && k != removed
            ==> #[trigger] spec_fan_out(mails.remove(removed), ev)[k] == mails[k].push(ev),
{
}

/// The computer-based-training hook code for a window being created.
pub const CODE_CREATE_WINDOW: u32 = 3;

/// The computer-based-training hook code for a window being destroyed.
pub const CODE_DESTROY_WINDOW: u32 = 4;

/// The bounded ingestion channel between the OS hook callback and the
/// dispatch thread.  Both endpoints are held here and never cloned, so a
/// failed non-blocking send can only mean a full queue, and a failed
/// non-blocking receive an empty one.
#[verifier::external_body]
pub struct IngestQueue {
    sender: crossbeam_channel::Sender<HookEvent>,
    receiver: crossbeam_channel::Receiver<HookEvent>,
}

/// The notifications queued in an ingestion channel, oldest first.
pub uninterp spec fn ingest_events(q: IngestQueue) -> Seq<HookEvent>;

/// The capacity the ingestion channel was created with.
pub uninterp spec fn ingest_bound(q: IngestQueue) -> nat;

/// Relies on crossbeam_channel::bounded: creates an empty first-in,
/// first-out queue that holds at most `cap` items.
#[verifier::external_body]
fn ingest_new(cap: usize) -> (q: IngestQueue)
    ensures
        ingest_events(q) == Seq::<HookEvent>::empty(),
        ingest_bound(q) == cap as nat,
{
    let (sender, receiver) = crossbeam_channel::bounded(cap);
    IngestQueue { sender, receiver }
}

/// Relies on crossbeam_channel::Sender::try_send on a bounded channel whose
/// receiver is alive alongside: the item is appended, and the send succeeds,
/// exactly when the queue is not full.
#[verifier::external_body]
fn ingest_try_push(q: &mut IngestQueue, ev: HookEvent) -> (pushed: bool)
    ensures
        pushed == (ingest_events(*old(q)).len() < ingest_bound(*old(q))),
        ingest_events(*final(q)) == if pushed {
            ingest_events(*old(q)).push(ev)
        } else {
            ingest_events(*old(q))
        },
        ingest_bound(*final(q)) == ingest_bound(*old(q)),
{
    q.sender.try_send(ev).is_ok()
}

/// Relies on crossbeam_channel::Receiver::try_recv on a channel whose sender
/// is alive alongside: pops and returns the oldest item, or returns nothing
/// when the queue is empty.
#[verifier::external_body]
fn ingest_try_pop(q: &mut IngestQueue) -> (r: Option<HookEvent>)
    ensures
        match r {
            Some(ev) => ingest_events(*old(q)).len() > 0
                && ev == ingest_events(*old(q))[0]
                && ingest_events(*final(q)) == ingest_events(*old(q)).drop_first(),
            None => ingest_events(*old(q)).len() == 0
                && ingest_events(*final(q)) == ingest_events(*old(q)),
        },
        ingest_bound(*final(q)) == ingest_bound(*old(q)),
{
    q.receiver.try_recv().ok()
}

/// The global hook state and the fan-out bus: the install reference count,
/// whether the OS hook is actually installed, the ingestion queue the hook
/// callback feeds, and the slot-keyed table of listener mailboxes.
pub struct HookBus {
    pub listeners: Arena<Vec<HookEvent>>,
    pub hook_refs: usize,
    pub installed: bool,
    pub ingest: IngestQueue,
}

impl HookBus {
    pub open spec fn wf(self) -> bool {
        self.listeners.wf()
    }

    /// The key names a registered listener.
    pub open spec fn live(self, k: SlotKey) -> bool {
        self.listeners.live(k)
    }

    /// The key can never name a listener again.
    pub open spec fn dead_forever(self, k: SlotKey) -> bool {
        self.listeners.dead_forever(k)
    }

    /// The mailbox of a registered listener, oldest event first.
    pub open spec fn mail(self, k: SlotKey) -> Seq<HookEvent>
        recommends
            self.live(k),
    {
        self.listeners.at(k)@
    }

    /// All mailboxes at once: the map from every registered listener's key
    /// to its queued events.
    pub open spec fn mails(self) -> Map<SlotKey, Seq<HookEvent>> {
        Map::new(|k: SlotKey| self.live(k), |k: SlotKey| self.mail(k))
    }

    /// The notifications awaiting dispatch, oldest first.
    pub open spec fn queued(self) -> Seq<HookEvent> {
        ingest_events(self.ingest)
    }

    /// The capacity of the ingestion queue.
    pub open spec fn queue_bound(self) -> nat {
        ingest_bound(self.ingest)
    }

    /// A bus with no listeners, no hold on the hook, and an empty ingestion
    /// queue of the given capacity.
    pub fn new(ingest_capacity: usize) -> (bus: HookBus)
        ensures
            bus.wf(),
            bus.hook_refs == 0,
            !bus.installed,
            bus.listeners.slots@.len() == 0,
            bus.queued() == Seq::<HookEvent>::empty(),
            bus.queue_bound() == ingest_capacity as nat,
    {
        HookBus {
            listeners: Arena::new(),
            hook_refs: 0,
            installed: false,
            ingest: ingest_new(ingest_capacity),
        }
    }

    /// Takes one reference on the global hook.  Only the zero-to-one
    /// transition performs the real install, whose outcome the caller hands
    /// in; an install failure is non-fatal and merely leaves the hook
    /// uninstalled, degrading the system to periodic re-evaluation.
    pub fn load_hook(&mut self, install_ok: bool) -> (installed: bool)
        requires
            old(self).wf(),
            old(self).hook_refs < usize::MAX,
        ensures
            final(self).wf(),
            final(self).hook_refs == old(self).hook_refs + 1,
            final(self).installed == if old(self).hook_refs == 0 {
                install_ok
            } else {
                old(self).installed
            },
            installed == final(self).installed,
            final(self).listeners == old(self).listeners,
            final(self).ingest == old(self).ingest,
    {
        if self.hook_refs == 0 {
            self.installed = install_ok;
        }
        self.hook_refs = self.hook_refs + 1;
        self.installed
    }

    /// Drops one reference on the global hook; the one-to-zero transition
    /// uninstalls it.
    pub fn unload_hook(&mut self)
        requires
            old(self).wf(),
        ensures
            final(self).wf(),
            final(self).hook_refs == if old(self).hook_refs > 0 {
                (old(self).hook_refs - 1) as usize
            } else {
                0usize
            },
            final(self).installed == (final(self).hook_refs > 0 && old(self).installed),
            final(self).listeners == old(self).listeners,
            final(self).ingest == old(self).ingest,
    {
        if self.hook_refs > 0 {
            self.hook_refs = self.hook_refs - 1;
        }
        if self.hook_refs == 0 {
            self.installed = false;
        }
    }

    /// Tears the hook state down unconditionally: the reference count is
    /// zeroed, the hook uninstalled, and every listener slot vacated so
    /// every previously valid key is dead for good.
    pub fn force_unhook(&mut self)
        requires
            old(self).wf(),
        ensures
            final(self).wf(),
            final(self).hook_refs == 0,
            !final(self).installed,
            forall|k: SlotKey| !final(self).live(k),
            forall|k: SlotKey| old(self).live(k) ==> final(self).dead_forever(k),
            forall|k: SlotKey| old(self).dead_forever(k) ==> final(self).dead_forever(k),
            final(self).ingest == old(self).ingest,
    {
        self.hook_refs = 0;
        self.installed = false;
        let n = self.listeners.slot_len();
        let mut i: usize = 0;
        while i < n
            invariant
                self.listeners.wf(),
                n == self.listeners.slots@.len(),
                i <= n,
                self.hook_refs == 0,
                !self.installed,
                self.ingest == old(self).ingest,
                forall|j: int| 0 <= j < i ==> (#[trigger] self.listeners.slots@[j]).value is None,
                forall|k: SlotKey| old(self).live(k) && (k.index as int) < i
                    ==> self.listeners.dead_forever(k),
                forall|k: SlotKey| old(self).live(k) && (k.index as int) >= i
                    ==> self.listeners.live(k),
                forall|k: SlotKey| old(self).dead_forever(k) ==> self.listeners.dead_forever(k),
            decreases n - i,
        {
            if self.listeners.occupied_at(i) {
                let _ = self.listeners.vacate_at(i);
            }
            i = i + 1;
        }
    }

    /// Registers a listener with an empty mailbox and returns its fresh
    /// slot key; no existing listener and no dead key is disturbed.
    pub fn register_listener(&mut self) -> (k: SlotKey)
        requires
            old(self).wf(),
            old(self).listeners.slots@.len() < usize::MAX,
        ensures
            final(self).wf(),
            !old(self).live(k),
            final(self).live(k),
            final(self).mail(k) == Seq::<HookEvent>::empty(),
            final(self).mails() =~= old(self).mails().insert(k, Seq::<HookEvent>::empty()),
            forall|k2: SlotKey| old(self).live(k2) ==> final(self).live(k2)
                && final(self).mail(k2) == old(self).mail(k2),
            forall|k2: SlotKey| k2 != k && !old(self).live(k2) ==> !final(self).live(k2),
            forall|k2: SlotKey| old(self).dead_forever(k2) ==> final(self).dead_forever(k2),
            final(self).hook_refs == old(self).hook_refs,
            final(self).installed == old(self).installed,
            final(self).ingest == old(self).ingest,
            final(self).listeners.slots@.len() <= old(self).listeners.slots@.len() + 1,
    {
        self.listeners.insert(Vec::new())
    }

    /// Removes a listener; its key is dead for good and nobody else's
    /// mailbox is touched.
    pub fn remove_listener(&mut self, k: SlotKey) -> (was: bool)
        requires
            old(self).wf(),
        ensures
            final(self).wf(),
            was == old(self).live(k),
            !final(self).live(k),
            was ==> final(self).dead_forever(k),
            final(self).mails() =~= old(self).mails().remove(k),
            forall|k2: SlotKey| old(self).live(k2) && k2 != k ==> final(self).live(k2)
                && final(self).mail(k2) == old(self).mail(k2),
            forall|k2: SlotKey| !old(self).live(k2) ==> !final(self).live(k2),
            forall|k2: SlotKey| old(self).dead_forever(k2) ==> final(self).dead_forever(k2),
            final(self).hook_refs == old(self).hook_refs,
            final(self).installed == old(self).installed,
            final(self).ingest == old(self).ingest,
            final(self).listeners.slots@.len() == old(self).listeners.slots@.len(),
    {
        self.listeners.remove(k)
    }

    /// Appends an event to one listener's mailbox, as the worker does with
    /// its own initial poke.  Fails exactly when the key is dead.
    pub fn send_to(&mut self, k: SlotKey, ev: HookEvent) -> (sent: bool)
        requires
            old(self).wf(),
        ensures
            final(self).wf(),
            sent == old(self).live(k),
            sent ==> final(self).live(k) && final(self).mail(k) == old(self).mail(k).push(ev),
            !sent ==> final(self).listeners == old(self).listeners,
            forall|k2: SlotKey| old(self).live(k2) && k2 != k ==> final(self).live(k2)
                && final(self).mail(k2) == old(self).mail(k2),
            forall|k2: SlotKey| !old(self).live(k2) ==> !final(self).live(k2),
            forall|k2: SlotKey| old(self).dead_forever(k2) ==> final(self).dead_forever(k2),
            final(self).hook_refs == old(self).hook_refs,
            final(self).installed == old(self).installed,
            final(self).ingest == old(self).ingest,
            final(self).listeners.slots@.len() == old(self).listeners.slots@.len(),
    {
        if self.listeners.contains(k) {
            let m = self.listeners.get_mut(k);
            m.push(ev);
            true
        } else {
            false
        }
    }

    /// Fans one event out: every registered listener's mailbox receives it,
    /// appended in the dispatch order, and listeners independent of one
    /// another; nothing else changes.
    pub fn publish(&mut self, ev: HookEvent)
        requires
            old(self).wf(),
        ensures
            final(self).wf(),
            final(self).mails() =~= spec_fan_out(old(self).mails(), ev),
            forall|k: SlotKey| old(self).live(k) ==> final(self).live(k)
                && final(self).mail(k) == old(self).mail(k).push(ev),
            forall|k: SlotKey| !old(self).live(k) ==> !final(self).live(k),
            forall|k: SlotKey| old(self).dead_forever(k) ==> final(self).dead_forever(k),
            final(self).hook_refs == old(self).hook_refs,
            final(self).installed == old(self).installed,
            final(self).ingest == old(self).ingest,
            final(self).listeners.slots@.len() == old(self).listeners.slots@.len(),
    {
        let n = self.listeners.slot_len();
        let mut i: usize = 0;
        while i < n
            invariant
                self.listeners.wf(),
                n == self.listeners.slots@.len(),
                n == old(self).listeners.slots@.len(),
                i <= n,
                self.hook_refs == old(self).hook_refs,
                self.installed == old(self).installed,
                self.ingest == old(self).ingest,
                forall|j: int| 0 <= j < n ==> (#[trigger] self.listeners.slots@[j]).generation
                    == old(self).listeners.slots@[j].generation,
                forall|j: int| 0 <= j < n ==> ((#[trigger] self.listeners.slots@[j]).value is Some
                    <==> old(self).listeners.slots@[j].value is Some),
                forall|j: int| 0 <= j < i && old(self).listeners.slots@[j].value is Some
                    ==> (#[trigger] self.listeners.slots@[j]).value->Some_0@
                        == old(self).listeners.slots@[j].value->Some_0@.push(ev),
                forall|j: int| i <= j < n && old(self).listeners.slots@[j].value is Some
                    ==> (#[trigger] self.listeners.slots@[j]).value->Some_0@
                        == old(self).listeners.slots@[j].value->Some_0@,
            decreases n - i,
        {
            if self.listeners.occupied_at(i) {
                let m = self.listeners.value_at_mut(i);
                m.push(ev);
            }
            i = i + 1;
        }
    }

    /// The next event in a listener's mailbox, oldest first; nothing when
    /// the key is dead or the mailbox is empty.
    pub fn next_event(&mut self, k: SlotKey) -> (r: Option<HookEvent>)
        requires
            old(self).wf(),
        ensures
            final(self).wf(),
            match r {
                Some(ev) => old(self).live(k)
                    && old(self).mail(k).len() > 0
                    && ev == old(self).mail(k)[0]
                    && final(self).live(k)
                    && final(self).mail(k) == old(self).mail(k).drop_first(),
                None => !old(self).live(k) || old(self).mail(k).len() == 0,
            },
            r is None && old(self).live(k) ==> final(self).live(k)
                && final(self).mail(k) == old(self).mail(k),
            forall|k2: SlotKey| old(self).live(k2) && k2 != k ==> final(self).live(k2)
                && final(self).mail(k2) == old(self).mail(k2),
            forall|k2: SlotKey| !old(self).live(k2) ==> !final(self).live(k2),
            forall|k2: SlotKey| old(self).dead_forever(k2) ==> final(self).dead_forever(k2),
            final(self).hook_refs == old(self).hook_refs,
            final(self).installed == old(self).installed,
            final(self).ingest == old(self).ingest,
    {
        if self.listeners.contains(k) {
            let m = self.listeners.get_mut(k);
            if m.len() > 0 {
                let ev = m.remove(0);
                proof {
                    assert(self.listeners.at(k)@ =~= old(self).mail(k).drop_first());
                }
                Some(ev)
            } else {
                None
            }
        } else {
            None
        }
    }

    /// What the OS hook callback does with a raw notification: window
    /// creation and destruction codes are queued for dispatch with a
    /// non-blocking attempt — a full queue drops the notification — and
    /// every other code is ignored.
    pub fn hook_proc(&mut self, code: u32, window: isize) -> (accepted: bool)
        requires
            old(self).wf(),
        ensures
            final(self).wf(),
            accepted == ((code == CODE_CREATE_WINDOW || code == CODE_DESTROY_WINDOW)
                && old(self).queued().len() < old(self).queue_bound()),
            final(self).queued() == if accepted {
                old(self).queued().push(Some(window))
            } else {
                old(self).queued()
            },
            final(self).queue_bound() == old(self).queue_bound(),
            final(self).listeners == old(self).listeners,
            final(self).hook_refs == old(self).hook_refs,
            final(self).installed == old(self).installed,
    {
        if code == CODE_CREATE_WINDOW || code == CODE_DESTROY_WINDOW {
            ingest_try_push(&mut self.ingest, Some(window))
        } else {
            false
        }
    }

    /// One step of the dispatch thread: drain the oldest queued
    /// notification, if any, and fan it out to every listener.
    pub fn dispatch_step(&mut self) -> (r: Option<HookEvent>)
        requires
            old(self).wf(),
        ensures
            final(self).wf(),
            match r {
                Some(ev) => old(self).queued().len() > 0
                    && ev == old(self).queued()[0]
                    && final(self).queued() == old(self).queued().drop_first()
                    && forall|k: SlotKey| old(self).live(k) ==> final(self).live(k)
                        && final(self).mail(k) == old(self).mail(k).push(ev),
                None => old(self).queued().len() == 0
                    && final(self).queued() == old(self).queued()
                    && final(self).listeners == old(self).listeners,
            },
            forall|k: SlotKey| !old(self).live(k) ==> !final(self).live(k),
            forall|k: SlotKey| old(self).dead_forever(k) ==> final(self).dead_forever(k),
            final(self).queue_bound() == old(self).queue_bound(),
            final(self).hook_refs == old(self).hook_refs,
            final(self).installed == old(self).installed,
    {
        match ingest_try_pop(&mut self.ingest) {
            Some(ev) => {
                self.publish(ev);
                Some(ev)
            },
            None => None,
        }
    }
}

} // verus!
