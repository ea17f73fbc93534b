//! Parsing and scoring of CVSS v2 and CVSS v3.0/3.1 vector strings.
//!
//! Weights are counted in thousandths and scores in tenths: a base score of
//! 7.4 is the number 74.

pub mod errors;
pub mod grammar;
pub mod metrics;
pub mod natural;
pub mod normalize;
pub mod parser;
pub mod severity;
pub mod v2;
pub mod v3;

use std::str::FromStr;
use vstd::prelude::*;

verus! {

/// A vector of either version.
#[derive(Clone, Debug)]
pub enum CVSS {
    /// A CVSS v2 vector.
    V2(v2::CVSSv2),
    /// A CVSS v3.0 or v3.1 vector.
    V3(v3::CVSSv3),
}

/// The base score of a vector, in tenths.
pub open spec fn base_score_of(cvss: CVSS) -> Result<int, errors::CVSSError> {
    match cvss {
        CVSS::V2(cvss) => v2::score::base_score_of(cvss@),
        CVSS::V3(cvss) => v3::score::base_score_of(cvss.1@),
    }
}

/// The temporal score of a vector, in tenths.
pub open spec fn temporal_score_of(cvss: CVSS) -> Result<int, errors::CVSSError> {
    match cvss {
        CVSS::V2(cvss) => v2::score::temporal_score_of(cvss@),
        CVSS::V3(cvss) => v3::score::temporal_score_of(cvss.1@),
    }
}

/// The environmental score of a vector, in tenths.
pub open spec fn environmental_score_of(cvss: CVSS) -> Result<int, errors::CVSSError> {
    match cvss {
        CVSS::V2(cvss) => v2::score::environmental_score_of(cvss@),
        CVSS::V3(cvss) => v3::score::environmental_score_of(cvss.1@),
    }
}

/// The canonical text of a vector.
pub open spec fn text_of(cvss: CVSS) -> Seq<char> {
    match cvss {
        CVSS::V2(cvss) => v2::text(cvss@),
        CVSS::V3(cvss) => v3::text(cvss.0, cvss.1@),
    }
}

/// Whether the metrics of a vector make a vector of its version: canonical,
/// and with every mandatory axis.
pub open spec fn is_vector(cvss: CVSS) -> bool {
    match cvss {
        CVSS::V2(cvss) => grammar::is_vector(cvss@),
        CVSS::V3(cvss) => grammar::is_vector(cvss.1@),
    }
}

impl CVSS {
    /// The base score, in tenths.
    pub fn base_score(&self) -> (r: Result<i64, errors::CVSSError>)
        ensures
            v2::score::as_int(r) == base_score_of(*self),
    {
        match self {
            CVSS::V2(cvss) => cvss.base_score(),
            CVSS::V3(cvss) => cvss.base_score(),
        }
    }

    /// The temporal score, in tenths.
    pub fn temporal_score(&self) -> (r: Result<i64, errors::CVSSError>)
        ensures
            v2::score::as_int(r) == temporal_score_of(*self),
    {
        match self {
            CVSS::V2(cvss) => cvss.temporal_score(),
            CVSS::V3(cvss) => cvss.temporal_score(),
        }
    }

    /// The environmental score, in tenths.
    pub fn environmental_score(&self) -> (r: Result<i64, errors::CVSSError>)
        ensures
            v2::score::as_int(r) == environmental_score_of(*self),
    {
        match self {
            CVSS::V2(cvss) => cvss.environmental_score(),
            CVSS::V3(cvss) => cvss.environmental_score(),
        }
    }

    /// The canonical vector string.
    pub fn to_string(&self) -> (s: String)
        ensures
            s@ == text_of(*self),
    {
        match self {
            CVSS::V2(cvss) => cvss.to_string(),
            CVSS::V3(cvss) => cvss.to_string(),
        }
    }
}

impl FromStr for CVSS {
    type Err = errors::CVSSError;

    fn from_str(s: &str) -> (r: Result<CVSS, errors::CVSSError>)
        ensures
            parser::parses(s@, r),
    {
        parser::parse(s)
    }
}

} // verus!
