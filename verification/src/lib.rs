//! Controller logic for a field-survey key panel: position fixes come in from
//! a location daemon, a key press tags the current position with a category,
//! and the tagged points are later assembled into a map document.
//!
//! Nothing in this crate touches a device, a socket or a file. Every entry
//! point maps plain values to plain values, so that the caller owns all I/O
//! and the rules themselves are proved.

pub mod clock;
pub mod command;
pub mod controller;
pub mod controller_laws;
pub mod counters;
pub mod export;
pub mod fix;
pub mod pages;
pub mod panel_laws;
pub mod recorder;
pub mod rules;
pub mod status;
pub mod text;
