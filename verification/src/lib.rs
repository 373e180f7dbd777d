//! Window-selection and capture-lifecycle engine for a window-capture video
//! source.
//!
//! The crate decides, at runtime, which top-level window a video source should
//! capture and manages the start/stop lifecycle of the capture session bound
//! to that window.  It models the window-event fan-out bus, the slot-keyed
//! registries, the pure refresh-decision policy, the capture-session cell and
//! the signal primitive; the host callbacks, the scripting engine and the
//! operating-system calls stay outside and hand the engine plain values.

pub mod bus;
pub mod config;
pub mod event;
pub mod policy;
pub mod registry;
pub mod session;
pub mod slots;
pub mod snapshot;
pub mod worker;
