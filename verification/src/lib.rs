//! A progress-reporting decorator for sequential iteration.
//!
//! The library wraps a finite sequence of work items, tracks how many items
//! have been consumed, and renders a textual progress line each time an item
//! is pulled: an open-ended tally in unbounded mode, or a fixed-width bar
//! with configurable brackets once the decorator is bound to the sequence's
//! known length. Rendering is pure: each pull returns the line to display,
//! and the caller decides how to write it to a terminal.

pub mod decorator;
pub mod indicator;
pub mod text;
