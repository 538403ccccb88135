//! The errors the event source and the analysis report.
use vstd::prelude::*;

verus! {

/// A failure of the event source, passed through unchanged.
#[derive(Debug, Clone, PartialEq, Eq)]
pub enum ApiError {
    /// The request could not be built.
    RequestConstructionError(String),
    /// The transport failed.
    RequestError(String),
    /// The service answered with a non-success status and this body.
    ApiReturnedError(u16, String),
    /// The response could not be decoded.
    ResponseFormatError(String),
}

/// Why an analysis could not be completed.
#[derive(Debug, Clone, PartialEq, Eq)]
pub enum AnalysisError {
    ApiError(ApiError),
    UnknownFightError(String),
    InvalidEventMatchError,
    UnspecifiedFightTime,
    UnlabeledFight,
    NoMatchingFights,
    InvalidReportCodeOrUrl,
}

} // verus!
