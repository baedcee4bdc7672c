//! Weather lookup for the terminal: the rules for reusing a cached report,
//! the report's data model, and the text shown for each requested field.

pub mod cache;
pub mod error;
pub mod json;
pub mod pipeline;
pub mod present;
pub mod text;
pub mod weather;
