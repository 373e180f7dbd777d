//! The refresh-decision policy: a pure function over the current session,
//! the triggering window (if any) and the window the selector chose.  Its
//! only side effect is reading and clearing the session's force-update flag.

use vstd::prelude::*;
use crate::session::CaptureSession;

verus! {

/// What is known about the window that triggered a selection pass: its
/// handle, its owning process id as resolved at trigger time (`None` when
/// the window vanished before resolution), its visibility, and its title.
#[derive(Clone, PartialEq, Eq, Debug)]
pub struct Trigger {
    pub window: isize,
    pub process_id: Option<u32>,
    pub visible: bool,
    pub title: String,
}

/// Whether a trigger window justifies rebuilding a session whose selected
/// window is unchanged: a distinct window of the same process appeared,
/// visible and with a non-empty title.
pub open spec fn trigger_refresh(t: Trigger, s: CaptureSession, selected: isize) -> bool {
    &&& t.window != selected
    &&& t.process_id == Some(s.process_id)
    &&& t.visible
    &&& t.title@.len() > 0
}

/// The refresh decision:
/// - no session: refresh;
/// - the selection moved to another window: refresh;
/// - the force-update flag was set: refresh;
/// - a trigger window other than the selected one: refresh exactly when a
///   same-process, visible, titled window appeared;
/// - a poke with the selection unchanged and the flag clear: no refresh.
pub open spec fn spec_decide(session: Option<CaptureSession>, trigger: Option<Trigger>, selected: isize) -> bool {
    match session {
        None => true,
        Some(s) => {
            if selected != s.window {
                true
            } else if s.force_update {
                true
            } else {
                match trigger {
                    Some(t) => trigger_refresh(t, s, selected),
                    None => false,
                }
            }
        },
    }
}

/// The session after one decision: the force-update flag is cleared exactly
/// when the decision reached it, that is when a session exists and the
/// selected window is the bound one; nothing else changes.
pub open spec fn spec_after_decide(session: Option<CaptureSession>, selected: isize) -> Option<CaptureSession> {
    match session {
        None => None,
        Some(s) => Some(
            if selected == s.window {
                CaptureSession { force_update: false, ..s }
            } else {
                s
            },
        ),
    }
}

/// Decides whether the capture session must be rebuilt for the selected
/// window.  Deterministic in its inputs and the flag; its only mutation is
/// clearing the force-update flag.
pub fn decide(session: &mut Option<CaptureSession>, trigger: &Option<Trigger>, selected: isize) -> (refresh: bool)
    ensures
        refresh == spec_decide(*old(session), *trigger, selected),
        *final(session) == spec_after_decide(*old(session), selected),
{
    match session {
        None => true,
        Some(s) => {
            if selected != s.window {
                true
            } else {
                let was_forced = s.force_update;
                s.force_update = false;
                if was_forced {
                    true
                } else {
                    match trigger {
                        Some(t) => {
                            t.window != selected
                            && (match t.process_id {
                                Some(p) => p == s.process_id,
                                None => false,
                            })
                            && t.visible
                            && !t.title.as_str().is_empty()
                        },
                        None => false,
                    }
                }
            }
        },
    }
}

/// With no session, every selection refreshes.
pub proof fn lemma_decide_no_session(trigger: Option<Trigger>, selected: isize)
    ensures
        spec_decide(None, trigger, selected),
{
}

/// Whenever the selected window differs from the bound one, the decision is
/// a refresh, whatever the trigger.
pub proof fn lemma_decide_window_moved(s: CaptureSession, trigger: Option<Trigger>, selected: isize)
    requires
        selected != s.window,
    ensures
        spec_decide(Some(s), trigger, selected),
{
}

/// A poke that re-selects the bound window is no refresh while the
/// force-update flag is clear.
pub proof fn lemma_decide_idle_poke(s: CaptureSession)
    requires
        !s.force_update,
    ensures
        !spec_decide(Some(s), None, s.window),
{
}

/// The decision mutates nothing but the force-update flag: the session stays
/// present or absent, and its resource, window and process id are kept.
pub proof fn lemma_decide_mutates_only_flag(session: Option<CaptureSession>, selected: isize)
    ensures
        match (session, spec_after_decide(session, selected)) {
            (Some(s), Some(a)) => {
                &&& a.resource == s.resource
                &&& a.window == s.window
                &&& a.process_id == s.process_id
            },
            (None, None) => true,
            _ => false,
        },
{
}

} // verus!
