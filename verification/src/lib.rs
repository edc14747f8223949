//! A lenient, human-friendly time-of-day parser with span-anchored
//! diagnostics.
//!
//! Free-form clock strings such as `"6"`, `"6:30pm"`, `"18:30"` or
//! `"6:30:15 pm"` are matched against a permissive grammar, validated field
//! by field, and combined into a normalized 24-hour time.  On failure the
//! parser returns a structured error value that records which field went
//! wrong and where in the original input it sits, and that can render
//! itself as a multi-line annotated report.

pub mod error;
pub mod field;
pub mod laws;
pub mod num;
pub mod parse;
pub mod render;
pub mod scan;
pub mod section;

pub use error::{ErrorView, FieldRange, TimeParseError};
pub use field::Field;
pub use parse::{opinionated_time_parsing, Time};
pub use section::{SectionView, StringSection};
