//! Keyboard-initiated host-switch synchronization.
//!
//! A session observes which host key was pressed on a keyboard, switches the
//! linked devices, and then switches the keyboard itself. Ordering matters:
//! once the keyboard leaves this host its channel can no longer command a
//! mouse that shares its receiver.
//!
//! Every procedure that talks to a device is a small machine: it names the
//! next operation, is handed what came of it, and names the next one, until it
//! finishes with a result.

pub mod arming;
pub mod arming_laws;
pub mod capture_laws;
pub mod channel_laws;
pub mod control_laws;
pub mod controls;
pub mod error;
pub mod failure_laws;
pub mod message;
pub mod prepare;
pub mod prepare_laws;
pub mod request;
pub mod session;
pub mod session_laws;
pub mod slots;
pub mod transition;
pub mod transition_laws;
