//! The per-source selection worker: its registration lifecycle on the bus,
//! the priority poll between cancellation and events, the selection pass
//! that turns a script outcome into a session transition, and the periodic
//! tick that supplies the liveness fallback.

use vstd::prelude::*;
use crate::bus::{HookBus, HookEvent};
use crate::policy::{decide, spec_after_decide, spec_decide, Trigger};
use crate::session::{CaptureCell, CaptureResource, CaptureSession};
use crate::slots::SlotKey;
use crate::snapshot::Window;

verus! {

/// The worker-side state of one source: its listener key on the bus,
/// whether it has been cancelled, and whether a selector function is
/// currently registered.
pub struct Worker {
    pub key: SlotKey,
    pub cancelled: bool,
    pub selector_loaded: bool,
}

/// What the selection script returned: a chosen window record, an explicit
/// deselection, or an error.
pub enum ScriptOutcome {
    Selected(Window),
    NoneSelected,
    Failed,
}

/// How one selection pass ended.
#[derive(Clone, Copy, PartialEq, Eq, Structural, Debug)]
pub enum PassOutcome {
    /// The script failed: logged, existing state untouched.
    ScriptError,
    /// The script deselected: any session was stopped.
    Deselected,
    /// The policy kept the existing session.
    NoRefresh,
    /// The chosen window no longer resolves to a process: pass abandoned,
    /// prior state kept.
    WindowVanished,
    /// A new session is running.
    Started,
    /// The platform bind failed: logged, no session.
    StartFailed,
}

/// What one poll of the worker's two inputs yielded.
#[derive(Clone, Copy, PartialEq, Eq, Structural, Debug)]
pub enum Polled {
    /// The cancellation signal was pending (it wins over any event); the
    /// worker has deregistered and released the hook.
    Cancelled,
    /// Nothing pending.
    Idle,
    /// The oldest event from the worker's own mailbox.
    Event(HookEvent),
}

/// Starts a worker: takes one reference on the hook (installing it on the
/// zero-to-one transition, with the given install outcome), registers a
/// fresh listener, and seeds the new mailbox with one synthetic poke so an
/// initial pass runs.
pub fn start_worker(bus: &mut HookBus, install_ok: bool) -> (w: Worker)
    requires
        old(bus).wf(),
        old(bus).hook_refs < usize::MAX,
        old(bus).listeners.slots@.len() < usize::MAX,
    ensures
        final(bus).wf(),
        !w.cancelled,
        !w.selector_loaded,
        !old(bus).live(w.key),
        final(bus).live(w.key),
        final(bus).mail(w.key) == Seq::<HookEvent>::empty().push(None),
        final(bus).hook_refs == old(bus).hook_refs + 1,
        final(bus).installed == if old(bus).hook_refs == 0 {
            install_ok
        } else {
            old(bus).installed
        },
        forall|k2: SlotKey| old(bus).live(k2) ==> final(bus).live(k2)
            && final(bus).mail(k2) == old(bus).mail(k2),
        forall|k2: SlotKey| old(bus).dead_forever(k2) ==> final(bus).dead_forever(k2),
        final(bus).ingest == old(bus).ingest,
{
    let _ = bus.load_hook(install_ok);
    let key = bus.register_listener();
    let _ = bus.send_to(key, None);
    Worker { key, cancelled: false, selector_loaded: false }
}

/// Polls the worker's two inputs with priority: the cancellation signal is
/// checked first and always wins.  On cancellation the worker removes
/// itself from the listener table, releases its hold on the hook and marks
/// itself cancelled; no event is returned past that point.
pub fn poll(w: &mut Worker, bus: &mut HookBus, cancel_ready: bool) -> (p: Polled)
    requires
        old(bus).wf(),
    ensures
        final(bus).wf(),
        (p is Cancelled) == (cancel_ready || old(w).cancelled),
        final(w).cancelled == (old(w).cancelled || cancel_ready),
        final(w).key == old(w).key,
        final(w).selector_loaded == old(w).selector_loaded,
        old(w).cancelled ==> *final(bus) == *old(bus),
        cancel_ready && !old(w).cancelled ==> !final(bus).live(old(w).key)
            && final(bus).hook_refs == if old(bus).hook_refs > 0 {
                (old(bus).hook_refs - 1) as usize
            } else {
                0usize
            }
            && final(bus).installed == (final(bus).hook_refs > 0 && old(bus).installed)
            && (old(bus).live(old(w).key) ==> final(bus).dead_forever(old(w).key)),
        !cancel_ready && !old(w).cancelled ==> {
            &&& final(bus).hook_refs == old(bus).hook_refs
            &&& final(bus).installed == old(bus).installed
            &&& match p {
                Polled::Event(ev) => old(bus).live(old(w).key)
                    && old(bus).mail(old(w).key).len() > 0
                    && ev == old(bus).mail(old(w).key)[0]
                    && final(bus).live(old(w).key)
                    && final(bus).mail(old(w).key) == old(bus).mail(old(w).key).drop_first(),
                Polled::Idle => !old(bus).live(old(w).key)
                    || old(bus).mail(old(w).key).len() == 0,
                Polled::Cancelled => false,
            }
            &&& (p is Idle && old(bus).live(old(w).key) ==> final(bus).live(old(w).key)
                && final(bus).mail(old(w).key) == old(bus).mail(old(w).key))
        },
        forall|k2: SlotKey| old(bus).live(k2) && k2 != old(w).key ==> final(bus).live(k2)
            && final(bus).mail(k2) == old(bus).mail(k2),
        forall|k2: SlotKey| old(bus).dead_forever(k2) ==> final(bus).dead_forever(k2),
        final(bus).ingest == old(bus).ingest,
{
    if w.cancelled {
        return Polled::Cancelled;
    }
    if cancel_ready {
        let _ = bus.remove_listener(w.key);
        bus.unload_hook();
        w.cancelled = true;
        return Polled::Cancelled;
    }
    match bus.next_event(w.key) {
        Some(ev) => Polled::Event(ev),
        None => Polled::Idle,
    }
}

/// Pokes a source's worker so it runs a selection pass, starting a fresh
/// worker first when none is running: the poke lands in the live worker's
/// mailbox, or a new worker is brought up (hook acquired, listener
/// registered) with its seeding poke.
pub fn run_callback(worker: &mut Option<Worker>, bus: &mut HookBus, install_ok: bool)
    requires
        old(bus).wf(),
        old(bus).hook_refs < usize::MAX,
        old(bus).listeners.slots@.len() < usize::MAX,
    ensures
        final(bus).wf(),
        (*final(worker)) is Some,
        !(*final(worker))->Some_0.cancelled,
        final(bus).live((*final(worker))->Some_0.key),
        (match *old(worker) {
            Some(w) => !w.cancelled && old(bus).live(w.key),
            None => false,
        }) ==> *final(worker) == *old(worker)
            && final(bus).mail((*old(worker))->Some_0.key)
                == old(bus).mail((*old(worker))->Some_0.key).push(None)
            && final(bus).hook_refs == old(bus).hook_refs
            && final(bus).installed == old(bus).installed,
        !(match *old(worker) {
            Some(w) => !w.cancelled && old(bus).live(w.key),
            None => false,
        }) ==> !old(bus).live((*final(worker))->Some_0.key)
            && final(bus).mail((*final(worker))->Some_0.key)
                == Seq::<HookEvent>::empty().push(None)
            && final(bus).hook_refs == old(bus).hook_refs + 1
            && final(bus).installed == if old(bus).hook_refs == 0 {
                install_ok
            } else {
                old(bus).installed
            },
        forall|k2: SlotKey| old(bus).live(k2) && (match *old(worker) {
            Some(w) => k2 != w.key,
            None => true,
        }) ==> final(bus).live(k2) && final(bus).mail(k2) == old(bus).mail(k2),
        forall|k2: SlotKey| old(bus).dead_forever(k2) ==> final(bus).dead_forever(k2),
        final(bus).ingest == old(bus).ingest,
{
    let needs_new = match worker {
        Some(w) => w.cancelled || !bus.listeners.contains(w.key),
        None => true,
    };
    if needs_new {
        *worker = Some(start_worker(bus, install_ok));
    } else {
        match worker {
            Some(w) => {
                let _ = bus.send_to(w.key, None);
            },
            None => {},
        }
    }
}

/// Applies a script (re)load to the worker's selector registration: a blank
/// script, or a failed load, clears the registration; a successful load of
/// a non-blank script sets it.
pub fn apply_script(w: &mut Worker, script_blank: bool, load_ok: bool)
    ensures
        final(w).selector_loaded == (!script_blank && load_ok),
        final(w).key == old(w).key,
        final(w).cancelled == old(w).cancelled,
{
    w.selector_loaded = !script_blank && load_ok;
}

/// What remains of a selection pass after the script outcome and the
/// refresh policy have been consulted.
#[derive(Clone, Copy, PartialEq, Eq, Structural, Debug)]
pub enum PassPlan {
    /// The pass is over, with this outcome.
    Done(PassOutcome),
    /// The policy asked for a refresh: the chosen window still needs its
    /// process resolved and a capture resource bound.
    Bind(isize),
}

/// The cell and plan after the first half of a pass: the script outcome is
/// applied and the refresh policy consulted (clearing the force-update flag
/// where it is reached); a refresh leaves a bind pending.
pub open spec fn spec_plan(
    cell: CaptureCell,
    trigger: Option<Trigger>,
    outcome: ScriptOutcome,
) -> (CaptureCell, PassPlan) {
    match outcome {
        ScriptOutcome::Failed => (cell, PassPlan::Done(PassOutcome::ScriptError)),
        ScriptOutcome::NoneSelected => (
            CaptureCell { session: None, ..cell },
            PassPlan::Done(PassOutcome::Deselected),
        ),
        ScriptOutcome::Selected(win) => {
            let selected = win.hwnd;
            let after = CaptureCell { session: spec_after_decide(cell.session, selected), ..cell };
            if !spec_decide(cell.session, trigger, selected) {
                (after, PassPlan::Done(PassOutcome::NoRefresh))
            } else {
                (after, PassPlan::Bind(selected))
            }
        },
    }
}

/// The first half of a selection pass: apply the script outcome and run the
/// refresh policy.  Nothing is bound yet, so the caller resolves the
/// chosen window's process and binds a resource only when a refresh is
/// actually due.
pub fn pass_plan(
    w: &Worker,
    cell: &mut CaptureCell,
    trigger: &Option<Trigger>,
    outcome: &ScriptOutcome,
) -> (plan: PassPlan)
    requires
        !w.cancelled,
    ensures
        *final(cell) == spec_plan(*old(cell), *trigger, *outcome).0,
        plan == spec_plan(*old(cell), *trigger, *outcome).1,
        final(cell).options == old(cell).options,
{
    match outcome {
        ScriptOutcome::Failed => PassPlan::Done(PassOutcome::ScriptError),
        ScriptOutcome::NoneSelected => {
            cell.stop();
            PassPlan::Done(PassOutcome::Deselected)
        },
        ScriptOutcome::Selected(win) => {
            let selected = win.hwnd;
            if decide(&mut cell.session, trigger, selected) {
                PassPlan::Bind(selected)
            } else {
                PassPlan::Done(PassOutcome::NoRefresh)
            }
        },
    }
}

/// The cell and outcome after a pending bind: an unresolvable window
/// abandons the pass, otherwise the old session is stopped and the new one
/// holds exactly the bind outcome.
pub open spec fn spec_bind(
    cell: CaptureCell,
    window: isize,
    resolved_pid: Option<u32>,
    resource: Option<CaptureResource>,
) -> (CaptureCell, PassOutcome) {
    match resolved_pid {
        None => (cell, PassOutcome::WindowVanished),
        Some(pid) => match resource {
            Some(res) => (
                CaptureCell {
                    session: Some(CaptureSession {
                        resource: res,
                        window,
                        process_id: pid,
                        force_update: false,
                    }),
                    ..cell
                },
                PassOutcome::Started,
            ),
            None => (CaptureCell { session: None, ..cell }, PassOutcome::StartFailed),
        },
    }
}

/// The second half of a selection pass, run only when the policy asked for
/// a refresh: stop whatever runs and bind the chosen window, with the
/// process resolution and bind outcome the collaborators returned.
pub fn pass_bind(
    w: &Worker,
    cell: &mut CaptureCell,
    window: isize,
    resolved_pid: Option<u32>,
    resource: Option<CaptureResource>,
) -> (r: PassOutcome)
    requires
        !w.cancelled,
    ensures
        *final(cell) == spec_bind(*old(cell), window, resolved_pid, resource).0,
        r == spec_bind(*old(cell), window, resolved_pid, resource).1,
        final(cell).options == old(cell).options,
{
    match resolved_pid {
        None => PassOutcome::WindowVanished,
        Some(pid) => {
            cell.stop();
            if cell.start(window, pid, resource) {
                PassOutcome::Started
            } else {
                PassOutcome::StartFailed
            }
        },
    }
}

/// The cell and outcome after one whole selection pass: the plan half,
/// then the bind half when one was pending.
pub open spec fn spec_selection(
    cell: CaptureCell,
    trigger: Option<Trigger>,
    outcome: ScriptOutcome,
    resolved_pid: Option<u32>,
    resource: Option<CaptureResource>,
) -> (CaptureCell, PassOutcome) {
    let (planned, plan) = spec_plan(cell, trigger, outcome);
    match plan {
        PassPlan::Done(out) => (planned, out),
        PassPlan::Bind(window) => spec_bind(planned, window, resolved_pid, resource),
    }
}

/// One selection pass over a source's capture cell.
///
/// The script outcome, the process resolution of the chosen window and the
/// platform bind outcome are what the respective collaborators returned for
/// this pass; the pass itself decides:
/// - a script error leaves the state untouched;
/// - an explicit deselection stops any session;
/// - otherwise the refresh policy runs, and on a refresh the old session is
///   stopped and a new one bound — unless the window's process no longer
///   resolves, which abandons the pass, or the bind fails, which leaves no
///   session.
///
/// A cancelled worker must not start sessions, so the pass demands a
/// worker that is still running.
pub fn selection_pass(
    w: &Worker,
    cell: &mut CaptureCell,
    trigger: &Option<Trigger>,
    outcome: &ScriptOutcome,
    resolved_pid: Option<u32>,
    resource: Option<CaptureResource>,
) -> (r: PassOutcome)
    requires
        !w.cancelled,
    ensures
        *final(cell) == spec_selection(*old(cell), *trigger, *outcome, resolved_pid, resource).0,
        r == spec_selection(*old(cell), *trigger, *outcome, resolved_pid, resource).1,
        final(cell).options == old(cell).options,
{
    match pass_plan(w, cell, trigger, outcome) {
        PassPlan::Done(out) => out,
        PassPlan::Bind(window) => pass_bind(w, cell, window, resolved_pid, resource),
    }
}

/// The accumulator behind the periodic liveness fallback: the host's tick
/// callback adds elapsed time, and a pass is forced each time a period
/// elapses.  The cadence is a tuning parameter the caller supplies.
pub struct TickTimer {
    pub accumulated_ms: u64,
}

/// Saturating addition on millisecond counters.
pub open spec fn sat_add(a: u64, b: u64) -> u64 {
    if a + b > u64::MAX {
        u64::MAX
    } else {
        (a + b) as u64
    }
}

impl TickTimer {
    pub fn new() -> (t: TickTimer)
        ensures
            t.accumulated_ms == 0,
    {
        TickTimer { accumulated_ms: 0 }
    }

    /// Adds elapsed time, saturating at the counter's maximum.
    pub fn advance(&mut self, elapsed_ms: u64)
        ensures
            final(self).accumulated_ms == sat_add(old(self).accumulated_ms, elapsed_ms),
    {
        if elapsed_ms > u64::MAX - self.accumulated_ms {
            self.accumulated_ms = u64::MAX;
        } else {
            self.accumulated_ms = self.accumulated_ms + elapsed_ms;
        }
    }

    /// Whether a period has elapsed; firing resets the accumulator.
    pub fn fire(&mut self, period_ms: u64) -> (fired: bool)
        ensures
            fired == (old(self).accumulated_ms >= period_ms),
            final(self).accumulated_ms == if fired {
                0u64
            } else {
                old(self).accumulated_ms
            },
    {
        if self.accumulated_ms >= period_ms {
            self.accumulated_ms = 0;
            true
        } else {
            false
        }
    }
}

/// What the host's periodic tick decided for a source.
#[derive(Clone, Copy, PartialEq, Eq, Structural, Debug)]
pub enum TickAction {
    /// Nothing to do.
    Keep,
    /// No session exists and the idle period elapsed: run a pass.
    Rerun,
    /// The session went stale (resource inactive, or the bound window's
    /// title moved on): drop it and run a pass.
    DropAndRerun,
}

/// The tick decision over the current cell and timer: with no session, a
/// pass is forced every `idle_period_ms`; with a session whose resource
/// went inactive, immediately; otherwise the bound window's title is probed
/// every `probe_period_ms` and a change forces a rebuild.
pub open spec fn spec_tick(
    cell: CaptureCell,
    acc: u64,
    idle_period_ms: u64,
    probe_period_ms: u64,
    title_changed: bool,
) -> (u64, TickAction) {
    match cell.session {
        None => if acc >= idle_period_ms {
            (0u64, TickAction::Rerun)
        } else {
            (acc, TickAction::Keep)
        },
        Some(s) => if !s.resource.active {
            (acc, TickAction::DropAndRerun)
        } else if acc >= probe_period_ms {
            (0u64, if title_changed {
                TickAction::DropAndRerun
            } else {
                TickAction::Keep
            })
        } else {
            (acc, TickAction::Keep)
        },
    }
}

/// One host tick: accumulates the elapsed time and decides whether a
/// selection pass must be forced.  `title_changed` is what the title probe
/// of the bound window observed, consulted only when the probe period
/// elapsed.
pub fn video_tick_plan(
    cell: &CaptureCell,
    timer: &mut TickTimer,
    elapsed_ms: u64,
    idle_period_ms: u64,
    probe_period_ms: u64,
    title_changed: bool,
) -> (a: TickAction)
    ensures
        ({
            let acc = sat_add(old(timer).accumulated_ms, elapsed_ms);
            let (acc2, action) = spec_tick(*cell, acc, idle_period_ms, probe_period_ms, title_changed);
            final(timer).accumulated_ms == acc2 && a == action
        }),
{
    timer.advance(elapsed_ms);
    match &cell.session {
        None => {
            if timer.fire(idle_period_ms) {
                TickAction::Rerun
            } else {
                TickAction::Keep
            }
        },
        Some(s) => {
            if !s.resource.active {
                TickAction::DropAndRerun
            } else if timer.fire(probe_period_ms) {
                if title_changed {
                    TickAction::DropAndRerun
                } else {
                    TickAction::Keep
                }
            } else {
                TickAction::Keep
            }
        },
    }
}

} // verus!
