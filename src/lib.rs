//! Phase progression statistics for recorded boss encounters, computed from a
//! paginated combat-log event source.
pub mod assembler;
pub mod errors;
pub mod events;
pub mod fights;
pub mod phase_definition;
pub mod query;
pub mod report;
pub mod report_code;
pub mod statistics;
pub mod stream;
pub mod types;
