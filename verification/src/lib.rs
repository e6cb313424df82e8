//! Trigger coordination for a source-tree watcher.
//!
//! The crate decides when a change notification may start a new compile run
//! and which commands that run consists of. It starts and ends no process
//! itself: every decision is a function of the state and of the time that
//! the caller hands in, and the caller carries out what is returned.

pub mod timelock;
pub mod state;
pub mod config;
pub mod compile;
pub mod ignore;
pub mod startup;

pub use timelock::{current, TimeLock, WINDOW};
pub use state::{Pid, State};
pub use config::{ArgsError, Config, USAGE};
pub use compile::{
    classify, compile, gate, handle_event, judge, on_notification, spawn_compile, Change, Event,
    Outcome, Worker,
};
pub use startup::{watched_directories, Fatal};
