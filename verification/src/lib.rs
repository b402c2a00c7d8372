//! Keyboards, mice and the hosts they move between.
//!
//! The crate holds the decisions of an Easy-Switch companion: which devices are
//! listed, what a keyboard's host keys mean, which linked devices follow it to
//! another host and in what order, and what is read out for diagnostics. What
//! talks to hardware, files or the screen is left to the caller.

pub mod devices;
pub mod diagnostics;
pub mod followers;
pub mod follower_laws;
pub mod host_switch;
pub mod manage;
pub mod manage_laws;
pub mod manager;
pub mod manager_laws;
pub mod panel;
pub mod route;
pub mod seqs;
pub mod session_fit_laws;
pub mod sorting;
pub mod text;
pub mod text_laws;
pub mod watcher;
