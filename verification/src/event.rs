//! The signal primitive: a manual-reset wake signal with an owning strong
//! handle and derived weak observers.  A weak observer never extends the
//! signal's lifetime; once the owner is gone it simply reports the signal
//! as dead.

use vstd::prelude::*;

verus! {

/// The state of the underlying signal: whether its owner still holds it
/// alive, and whether it is currently signaled.
#[derive(Clone, Copy, PartialEq, Eq, Structural, Debug)]
pub struct EventHandle {
    pub alive: bool,
    pub signaled: bool,
}

impl EventHandle {
    /// The owner releases the signal; every weak observer reports it dead
    /// from now on.
    pub fn close(&mut self)
        ensures
            !final(self).alive,
            final(self).signaled == old(self).signaled,
    {
        self.alive = false;
    }
}

/// A handle on the signal: the strong form owns it, the weak form observes
/// it without keeping it alive.
#[derive(Clone, Copy, PartialEq, Eq, Structural, Debug)]
pub enum EventHolder {
    Strong,
    Weak,
}

/// A non-owning observer that waits on the signal.
#[derive(Clone, Copy, PartialEq, Eq, Structural, Debug)]
pub struct EventListener {
    pub weak: bool,
}

impl EventHolder {
    /// A fresh strong holder over a fresh, unsignaled signal.
    pub fn new() -> (r: (EventHolder, EventHandle))
        ensures
            r.0 is Strong,
            r.1.alive,
            !r.1.signaled,
    {
        (EventHolder::Strong, EventHandle { alive: true, signaled: false })
    }

    /// Wakes the signal.  Succeeds exactly while the owner is alive; a weak
    /// holder whose owner is gone changes nothing.
    pub fn signal(&self, handle: &mut EventHandle) -> (ok: bool)
        ensures
            ok == old(handle).alive,
            final(handle).alive == old(handle).alive,
            final(handle).signaled == (old(handle).signaled || old(handle).alive),
    {
        if handle.alive {
            handle.signaled = true;
            true
        } else {
            false
        }
    }

    /// Clears the signal.  Succeeds exactly while the owner is alive.
    pub fn reset(&self, handle: &mut EventHandle) -> (ok: bool)
        ensures
            ok == old(handle).alive,
            final(handle).alive == old(handle).alive,
            final(handle).signaled == (old(handle).signaled && !old(handle).alive),
    {
        if handle.alive {
            handle.signaled = false;
            true
        } else {
            false
        }
    }

    /// A weak handle on the same signal.
    pub fn weaken(&self) -> (r: EventHolder)
        ensures
            r is Weak,
    {
        EventHolder::Weak
    }

    /// An observer on the signal.
    pub fn listener(&self) -> (r: EventListener)
        ensures
            r.weak,
    {
        EventListener { weak: true }
    }
}

impl EventListener {
    /// A non-blocking poll: the signal state, or nothing once the owner is
    /// gone.  The manual-reset signal is not consumed by observation.
    pub fn check(&self, handle: &EventHandle) -> (r: Option<bool>)
        ensures
            r == if handle.alive {
                Some(handle.signaled)
            } else {
                None::<bool>
            },
    {
        if handle.alive {
            Some(handle.signaled)
        } else {
            None
        }
    }

    /// A bounded wait, as it resolves: the signal state once the signal
    /// fired or the timeout elapsed, or nothing once the owner is gone.
    /// The blocking itself happens at the host; an unbounded wait on an
    /// unsignaled signal would never resolve, so it is excluded here.
    pub fn wait(&self, handle: &EventHandle, timeout_ms: Option<u64>) -> (r: Option<bool>)
        requires
            timeout_ms is Some || handle.signaled || !handle.alive,
        ensures
            r == if handle.alive {
                Some(handle.signaled)
            } else {
                None::<bool>
            },
    {
        self.check(handle)
    }
}

} // verus!
