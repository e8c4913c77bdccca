//! Lock-free hand-off of captured audio samples to a windowed level analysis.
//!
//! A capture callback pushes raw samples into a fixed-capacity ring buffer;
//! an analysis engine, polled from another thread, drains the buffer into a
//! window and hands the window out once enough samples have gathered.

pub mod buffer;
pub mod engine;
pub mod format;
pub mod listing;
pub mod prompt;
pub mod session;
pub mod window;
