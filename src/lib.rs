//! An editing session for speedrun splits: the timing library's run editor
//! over a private copy of a run, per-field text state, dirty tracking, and
//! a controller that commits to or discards against the shared timer.

pub mod buffer;
pub mod config;
pub mod count;
pub mod editor;
pub mod field;
pub mod laws;
pub mod order;
pub mod session;
pub mod time;
pub mod timer;
