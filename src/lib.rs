//! Interaction logic of a small chat client: the application model with its
//! update step, and the decisions of three custom widgets (a clickable list
//! item, a message composer, and a circular initial badge).
//!
//! Rendering and the toolkit's event plumbing stay with the caller: each widget
//! here receives what its inner toolkit control reported and decides what the
//! enclosing tree sees.

pub mod app;
pub mod weights;
