//! Decision core of a small home-security controller.
//!
//! The crate holds the alarm state machine, the textual form in which a state
//! is stored and reported, and the policy that says which actuator action and
//! which durable write accompany each event. It performs no I/O: callers feed
//! it events and carry out what it returns.

pub mod action;
pub mod controller;
pub mod laws;
pub mod machine;
pub mod state;
pub mod store;
