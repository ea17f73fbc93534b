//! The errors of parsing and scoring.

use vstd::prelude::*;

verus! {

/// Everything that can go wrong while parsing or scoring a vector.
#[derive(Clone, Copy, Debug, PartialEq, Eq, Structural)]
#[non_exhaustive]
pub enum CVSSError {
    /// A score lies outside the range 0.0 to 10.0.
    InvalidScore,
    /// The text is not a vector string of the expected version.
    ParsingError,
    /// The same metric occurs more than once in a vector string.
    DuplicateMetrics,
    /// The vector lacks a metric that the base score needs.
    IncompleteBaseScore,
    /// The vector lacks a metric that the temporal score needs.
    IncompleteTemporalScore,
    /// The vector lacks a metric that the environmental score needs.
    IncompleteEnvironmentalScore,
}

impl CVSSError {
    /// The message shown for this error.
    #[verifier::allow_in_spec]
    pub fn message(&self) -> &'static str
        returns
            (match self {
                CVSSError::InvalidScore => "score not within expected range 0.0 -> 10.0",
                CVSSError::ParsingError => "invalid cvss v3 vector string",
                CVSSError::DuplicateMetrics => "duplicate CVSS metrics detected in vector string",
                CVSSError::IncompleteBaseScore =>
                    "unable to compute base score based on provided metrics",
                CVSSError::IncompleteTemporalScore =>
                    "unable to compute temporal score based on provided metrics",
                CVSSError::IncompleteEnvironmentalScore =>
                    "unable to compute temporal score based on provided metrics",
            }),
    {
        match self {
            CVSSError::InvalidScore => "score not within expected range 0.0 -> 10.0",
            CVSSError::ParsingError => "invalid cvss v3 vector string",
            CVSSError::DuplicateMetrics => "duplicate CVSS metrics detected in vector string",
            CVSSError::IncompleteBaseScore => {
                "unable to compute base score based on provided metrics"
            },
            CVSSError::IncompleteTemporalScore => {
                "unable to compute temporal score based on provided metrics"
            },
            CVSSError::IncompleteEnvironmentalScore => {
                "unable to compute temporal score based on provided metrics"
            },
        }
    }
}

} // verus!
