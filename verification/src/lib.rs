//! Core of a Wayland screen locker: the decisions of a lock session, kept apart
//! from the display connection that carries them out.
//!
//! The crate holds the colour grammar, the merging of command line and
//! configuration, the log line format, and the state machines of a lock
//! session: the protocol environment, the seats and their input queue, the
//! per-output lock surfaces with their double buffer pool, and the password
//! state machine that ties them together.

pub mod color;
pub mod config;
pub mod io;
pub mod lock;
pub mod logger;
pub mod options;
pub mod text;
