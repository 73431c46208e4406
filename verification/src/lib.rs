//! Reader and compiler for structured cycling workouts.
//!
//! A workout description is a loosely tagged text. The modules below find the
//! recognised tags in such a text, decode their attributes into typed
//! segments and text annotations, and compile the segments into a per-second
//! timeline of cadence and power targets.

pub mod annotation;
pub mod attribute;
pub mod document;
pub mod math;
pub mod segment;
pub mod text;
pub mod timeline;
