//! Configuration carried by a source: the capture options that a new session
//! is started with, and the full settings block the host hands over.

use vstd::prelude::*;

verus! {

/// The per-session capture options.
#[derive(Clone, Copy, PartialEq, Eq, Structural, Debug)]
pub struct CaptureOptions {
    pub cursor: bool,
    pub border: bool,
}

impl CaptureOptions {
    pub fn new(cursor: bool, border: bool) -> (o: CaptureOptions)
        ensures
            o == (CaptureOptions { cursor, border }),
    {
        CaptureOptions { cursor, border }
    }
}

impl Default for CaptureOptions {
    /// Cursor capture on, borders off.
    fn default() -> (o: CaptureOptions)
        ensures
            o == (CaptureOptions { cursor: true, border: false }),
    {
        CaptureOptions { cursor: true, border: false }
    }
}

/// The full settings block of a source: the selector script text and the
/// capture toggles.
#[derive(Clone, PartialEq, Eq, Debug)]
pub struct Settings {
    pub script: String,
    pub cursor: bool,
    pub client_area: bool,
    pub force_sdr: bool,
}

impl Default for Settings {
    /// An empty script, cursor capture on, full window, no forced SDR.
    fn default() -> (s: Settings)
        ensures
            s.script@.len() == 0,
            s.cursor,
            !s.client_area,
            !s.force_sdr,
    {
        Settings {
            script: String::new(),
            cursor: true,
            client_area: false,
            force_sdr: false,
        }
    }
}

} // verus!
