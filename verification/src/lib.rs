//! Behavioural core of a desktop companion widget: the stepper that drives
//! every window animation, the follow-mode state machine, the docking rule
//! and the watcher that reports changes of the foreground application.
//!
//! The library performs no input or output. Its callers read the platform,
//! hand the readings in as plain values, and carry out the actions that come
//! back.

pub mod config;
pub mod dock;
pub mod follow;
pub mod geometry;
pub mod signal;
pub mod stepper;
pub mod watcher;
