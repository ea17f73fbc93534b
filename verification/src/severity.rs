//! The severity rating of a vector of either version.

pub use crate::v3::severity::SeverityRating;

use crate::errors::CVSSError;
use crate::v2;
use crate::v3;
use crate::CVSS;
use vstd::prelude::*;
use vstd::std_specs::convert::TryFromSpecImpl;

verus! {

/// The rating of a CVSS v2 score among the ratings of CVSS v3.
pub open spec fn widened(rating: v2::severity::SeverityRating) -> SeverityRating {
    match rating {
        v2::severity::SeverityRating::Low => SeverityRating::Low,
        v2::severity::SeverityRating::Medium => SeverityRating::Medium,
        v2::severity::SeverityRating::High => SeverityRating::High,
    }
}

/// The rating of a vector: that of its base score, in the bands of its
/// version. A vector without a base score has none, and the error says so.
pub open spec fn rating_of(cvss: CVSS) -> Result<SeverityRating, CVSSError> {
    match crate::base_score_of(cvss) {
        Err(e) => Err(e),
        Ok(tenths) => match cvss {
            CVSS::V2(_) => match v2::severity::rating_of(tenths) {
                Ok(rating) => Ok(widened(rating)),
                Err(e) => Err(e),
            },
            CVSS::V3(_) => v3::severity::rating_of(tenths),
        },
    }
}

impl<'a> TryFrom<&'a CVSS> for SeverityRating {
    type Error = CVSSError;

    /// The rating of the base score of a vector.
    fn try_from(cvss: &'a CVSS) -> (r: Result<SeverityRating, CVSSError>) {
        let tenths = match cvss.base_score() {
            Ok(tenths) => tenths,
            Err(e) => {
                return Err(e);
            },
        };
        match cvss {
            CVSS::V2(_) => match v2::severity::SeverityRating::try_from(tenths) {
                Ok(v2::severity::SeverityRating::Low) => Ok(SeverityRating::Low),
                Ok(v2::severity::SeverityRating::Medium) => Ok(SeverityRating::Medium),
                Ok(v2::severity::SeverityRating::High) => Ok(SeverityRating::High),
                Err(e) => Err(e),
            },
            CVSS::V3(_) => SeverityRating::try_from(tenths),
        }
    }
}

impl<'a> TryFromSpecImpl<&'a CVSS> for SeverityRating {
    open spec fn obeys_try_from_spec() -> bool {
        true
    }

    open spec fn try_from_spec(cvss: &'a CVSS) -> Result<SeverityRating, CVSSError> {
        rating_of(*cvss)
    }
}

} // verus!
