//! Editing of a document of audio scenes through a single owner that serves
//! requests in order, a debounced warning for a near-maximum output level,
//! and the events both hand to the presentation layer.

pub mod actor;
pub mod hub;
pub mod project;
pub mod watcher;
