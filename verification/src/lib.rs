//! Scheduling of periodic screen captures over a bounded session.
//!
//! A session is configured once ([`config`]), then driven event by event
//! through a small state machine ([`scheduler`]) that decides when a capture
//! event may start, counts the events that completed and computes the
//! drift-compensated pause between two events. Reading the clock,
//! capturing, storing and sleeping are left to the caller, which hands in
//! what it read and reports back what it observed.
//! Within an event the targets are taken in the order of [`event`].
//! [`laws`] states what holds of every session, [`naming`] writes the names
//! of a session and of its frames, [`clock`] measures the time between two
//! readings of the clock, and [`form`] models the operator's input form.

pub mod clock;
pub mod config;
pub mod event;
pub mod form;
pub mod laws;
pub mod naming;
pub mod scheduler;
