//! Reports on the entries of zip archives: which statistics to show, which
//! entries to leave out, how well each entry compresses, and the two shapes in
//! which the result is handed out (an indented outline and a keyed document).
//!
//! The archives themselves are read elsewhere; this crate works on the plain
//! values that such a reading yields.

pub mod batch;
pub mod document;
pub mod entry;
pub mod error;
pub mod exclusion;
pub mod flat_writer;
pub mod json_writer;
pub mod keyed;
pub mod rate;
pub mod report;
pub mod zip_info;
