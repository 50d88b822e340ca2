//! The startup sequence of the desktop shell, as a state machine.
//!
//! The shell registers four framework plugins, installs a setup hook that
//! opens the application's persistent store, and hands control to the
//! framework's run loop. Everything that touches the framework is done by the
//! host; this crate decides what the host does next and what each outcome
//! means. [`Phase`] is the state, [`Event`] what the host reports, and
//! [`Action`] what it is asked to do.

pub mod laws;
pub mod machine;
pub mod plan;

pub use machine::{Action, Event, Failure, Phase};
pub use plan::{plugins, run_failure_message, store_name, Plugin};
