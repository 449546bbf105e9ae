//! Preview engine of a launcher: a single-slot preview cache, the dispatch
//! decision for a selection event, the per-type rendering rules and the
//! cancellation protocol for loads that finish later.
//!
//! The engine works on plain values. Whoever owns the display toolkit performs
//! the effects that the engine decides on and reports back what happened.

pub mod handler;
pub mod item;
pub mod laws;
pub mod media;
pub mod renderers;
pub mod table;
pub mod text;
pub mod theme;
pub mod widget;
