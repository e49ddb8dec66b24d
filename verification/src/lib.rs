//! Lifecycle supervision for a single long-running child server process.
//!
//! A desktop shell launches one backend server as a child process and needs to
//! know, reliably, when that server is actually able to accept connections —
//! not merely that it was spawned — and where to reach it. This crate holds
//! the decision logic of that supervision as a verified state machine: the
//! shell performs the operating-system work (spawning, probing a socket,
//! sleeping, terminating) and reports each outcome here; the supervisor
//! decides every transition and every next action, and the locator turns the
//! supervisor's state into a reachable base URL or a typed diagnostic.

pub mod config;
pub mod decimal;
pub mod locator;
pub mod state;
pub mod supervisor;
