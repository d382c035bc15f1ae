//! A tray countdown timer, verified at its core.
//!
//! The library holds the timer's logic: the `MM:SS` label formatter, the
//! session state (idle / running / paused with a remaining-seconds count),
//! and the event dispatcher that turns tray events into state transitions,
//! label pushes and scheduling requests. The operating-system tray surface
//! itself is an outside collaborator that the surrounding program drives.

pub mod clock;
pub mod dispatch;
pub mod laws;
pub mod session;
