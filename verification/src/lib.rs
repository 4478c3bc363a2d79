//! Input identity resolution and report rendering for mahjong game log reviews.
//!
//! The crate decides which log is being reviewed and how its output is named,
//! checks a configuration record before any work starts, and turns a review
//! result into one minified document.

pub mod args;
pub mod functions;
pub mod json;
pub mod log_source;
pub mod opts;
pub mod path;
pub mod render;
pub mod text;
