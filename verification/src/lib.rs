//! A verified core for a single-window to-do list manager.
//!
//! The library owns the application state (an ordered list of to-do items
//! plus the pending text of the input field) and every operation that
//! mutates it; the windowing framework around it only delivers events and
//! paints what the state says.

pub mod frame;
pub mod label;
pub mod state;
