//! Bootstrap logic for a native launcher that embeds a Java virtual machine.
//!
//! The crate resolves a layered JSON configuration into an effective
//! configuration, turns it into an absolute launch plan, and drives the
//! embedding lifecycle as a state machine whose actions are carried out by
//! the host program.
pub mod bootstrap;
pub mod config;
pub mod coordinator;
pub mod path;
pub mod plan;
pub mod platform;
