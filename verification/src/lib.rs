//! An engine that keeps a row of numeric fields in proportion: when the
//! focused field is edited, every other field is rescaled by the ratio it
//! was given when the engine was made.
//!
//! The engine holds the fields, the focus and the request to leave, and
//! decides what a tick of the timer or an event of the terminal does to
//! them. It does no arithmetic and no input or output: numbers are carried
//! as bit patterns, and whoever drives the engine computes with them, edits
//! the text and paints the fields.
pub mod app;
pub mod entry;
pub mod event;
pub mod input;
pub mod item;
pub mod laws;
pub mod layout;
pub mod number;
pub mod style;
pub mod value;
