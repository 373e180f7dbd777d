//! The capture-session cell: at most one capture session per source, bound to
//! one window and one process, with an out-of-band force-update flag.

use vstd::prelude::*;
use crate::config::CaptureOptions;

verus! {

/// The platform capture resource bound to one window, as the engine sees it:
/// its frame dimensions and whether it is still delivering frames.
#[derive(Clone, Copy, PartialEq, Eq, Structural, Debug)]
pub struct CaptureResource {
    pub width: u32,
    pub height: u32,
    pub active: bool,
}

/// One capture session: the capture resource, the window it is bound to, the
/// owning process id (set once at creation, used only for comparison), and
/// the force-update flag that configuration changes set out of band.
#[derive(Clone, Copy, PartialEq, Eq, Structural, Debug)]
pub struct CaptureSession {
    pub resource: CaptureResource,
    pub window: isize,
    pub process_id: u32,
    pub force_update: bool,
}

/// A source's capture-session state cell: zero or one session, plus the
/// configuration the next session will be started with.
#[derive(Clone, PartialEq, Eq, Structural, Debug)]
pub struct CaptureCell {
    pub session: Option<CaptureSession>,
    pub options: CaptureOptions,
}

impl CaptureCell {
    /// An empty cell holding the given configuration and no session.
    pub fn new(options: CaptureOptions) -> (cell: CaptureCell)
        ensures
            cell.session is None,
            cell.options == options,
    {
        CaptureCell { session: None, options }
    }

    /// Stops the session, if any.  Idempotent: on an empty cell it is a
    /// no-op.
    pub fn stop(&mut self)
        ensures
            final(self).session is None,
            final(self).options == old(self).options,
    {
        self.session = None;
    }

    /// Binds a new session to `window` and `process_id`, replacing whatever
    /// was there.  `resource` is the outcome of the platform bind: `None`
    /// means the start failed and the cell is left with no session.
    pub fn start(&mut self, window: isize, process_id: u32, resource: Option<CaptureResource>) -> (ok: bool)
        ensures
            ok == resource is Some,
            final(self).session == match resource {
                Some(r) => Some(CaptureSession {
                    resource: r,
                    window,
                    process_id,
                    force_update: false,
                }),
                None => None::<CaptureSession>,
            },
            final(self).options == old(self).options,
    {
        match resource {
            Some(r) => {
                self.session = Some(CaptureSession {
                    resource: r,
                    window,
                    process_id,
                    force_update: false,
                });
                true
            },
            None => {
                self.session = None;
                false
            },
        }
    }

    /// Requests a rebuild of the current session without changing its target
    /// window.  A no-op on an empty cell.
    pub fn set_force_update(&mut self)
        ensures
            final(self).session == match old(self).session {
                Some(s) => Some(CaptureSession { force_update: true, ..s }),
                None => None::<CaptureSession>,
            },
            final(self).options == old(self).options,
    {
        match &mut self.session {
            Some(s) => {
                s.force_update = true;
            },
            None => {},
        }
    }

    /// Replaces the configuration.  Returns whether it changed; on a change
    /// the live session's force-update flag is set so the next selection
    /// pass rebuilds it.
    pub fn update_options(&mut self, new_options: CaptureOptions) -> (changed: bool)
        ensures
            changed == (old(self).options != new_options),
            final(self).options == new_options,
            final(self).session == if changed {
                match old(self).session {
                    Some(s) => Some(CaptureSession { force_update: true, ..s }),
                    None => None::<CaptureSession>,
                }
            } else {
                old(self).session
            },
    {
        if self.options == new_options {
            false
        } else {
            self.options = new_options;
            self.set_force_update();
            true
        }
    }

    /// The width the source reports: the session's frame width, or zero when
    /// no session exists.
    pub fn width(&self) -> (w: u32)
        ensures
            w == match self.session {
                Some(s) => s.resource.width,
                None => 0u32,
            },
    {
        match &self.session {
            Some(s) => s.resource.width,
            None => 0,
        }
    }

    /// The height the source reports: the session's frame height, or zero
    /// when no session exists.
    pub fn height(&self) -> (h: u32)
        ensures
            h == match self.session {
                Some(s) => s.resource.height,
                None => 0u32,
            },
    {
        match &self.session {
            Some(s) => s.resource.height,
            None => 0,
        }
    }
}

/// What the frame callback hands to the host for one delivered frame: the
/// dimensions, the line stride of the tightly packed 4-byte-per-pixel buffer,
/// and the millisecond timestamp.
#[derive(Clone, Copy, PartialEq, Eq, Structural, Debug)]
pub struct FramePlan {
    pub width: u32,
    pub height: u32,
    pub linesize: u32,
    pub timestamp_ms: u64,
}

/// Packages one frame's metadata for submission.  The stride is four bytes
/// per pixel, so the width must leave room for the multiplication.
pub fn frame_plan(width: u32, height: u32, timestamp_ms: u64) -> (p: FramePlan)
    requires
        width <= u32::MAX / 4,
    ensures
        p == (FramePlan { width, height, linesize: (width * 4) as u32, timestamp_ms }),
{
    FramePlan { width, height, linesize: width * 4, timestamp_ms }
}

} // verus!
