//! The severity bands of CVSS v3.

use crate::errors::CVSSError;
use vstd::prelude::*;
use vstd::std_specs::convert::TryFromSpecImpl;

verus! {

/// The qualitative severity rating of a score.
#[derive(Clone, Copy, Debug, PartialEq, Eq, Structural)]
pub enum SeverityRating {
    /// A score of 0.0: the rating that CVSS calls "None".
    Nil,
    /// A score from 0.1 to 3.9.
    Low,
    /// A score from 4.0 to 6.9.
    Medium,
    /// A score from 7.0 to 8.9.
    High,
    /// A score from 9.0 to 10.0.
    Critical,
}

impl SeverityRating {
    /// The name of the rating.
    #[verifier::allow_in_spec]
    pub fn as_str(&self) -> &'static str
        returns
            (match self {
                SeverityRating::Nil => "None",
                SeverityRating::Low => "Low",
                SeverityRating::Medium => "Medium",
                SeverityRating::High => "High",
                SeverityRating::Critical => "Critical",
            }),
    {
        match self {
            SeverityRating::Nil => "None",
            SeverityRating::Low => "Low",
            SeverityRating::Medium => "Medium",
            SeverityRating::High => "High",
            SeverityRating::Critical => "Critical",
        }
    }
}

/// The rating of a score given in tenths. A score below 0.0 or above 10.0
/// has none.
pub open spec fn rating_of(tenths: int) -> Result<SeverityRating, CVSSError> {
    if tenths == 0 {
        Ok(SeverityRating::Nil)
    } else if 1 <= tenths <= 39 {
        Ok(SeverityRating::Low)
    } else if 40 <= tenths <= 69 {
        Ok(SeverityRating::Medium)
    } else if 70 <= tenths <= 89 {
        Ok(SeverityRating::High)
    } else if 90 <= tenths <= 100 {
        Ok(SeverityRating::Critical)
    } else {
        Err(CVSSError::InvalidScore)
    }
}

impl TryFrom<i64> for SeverityRating {
    type Error = CVSSError;

    /// The rating of a score given in tenths.
    fn try_from(tenths: i64) -> (r: Result<SeverityRating, CVSSError>) {
        if tenths == 0 {
            Ok(SeverityRating::Nil)
        } else if 1 <= tenths && tenths <= 39 {
            Ok(SeverityRating::Low)
        } else if 40 <= tenths && tenths <= 69 {
            Ok(SeverityRating::Medium)
        } else if 70 <= tenths && tenths <= 89 {
            Ok(SeverityRating::High)
        } else if 90 <= tenths && tenths <= 100 {
            Ok(SeverityRating::Critical)
        } else {
            Err(CVSSError::InvalidScore)
        }
    }
}

impl TryFromSpecImpl<i64> for SeverityRating {
    open spec fn obeys_try_from_spec() -> bool {
        true
    }

    open spec fn try_from_spec(tenths: i64) -> Result<SeverityRating, CVSSError> {
        rating_of(tenths as int)
    }
}

/// The bands leave no gap and do not overlap: every score from 0.0 to 10.0
/// has a rating, a score outside has none, and a score a tenth above
/// another is rated the same or one band higher.
pub proof fn lemma_bands(tenths: int)
    ensures
        0 <= tenths <= 100 <==> rating_of(tenths) is Ok,
        0 <= tenths < 100 ==> band(rating_of(tenths + 1)->Ok_0) - band(rating_of(tenths)->Ok_0)
            <= 1,
        0 <= tenths < 100 ==> band(rating_of(tenths + 1)->Ok_0) >= band(rating_of(tenths)->Ok_0),
        rating_of(39) == Ok::<SeverityRating, CVSSError>(SeverityRating::Low),
        rating_of(40) == Ok::<SeverityRating, CVSSError>(SeverityRating::Medium),
        rating_of(0) == Ok::<SeverityRating, CVSSError>(SeverityRating::Nil),
{
}

/// The place of a rating among the bands, from the lowest up.
pub open spec fn band(rating: SeverityRating) -> int {
    match rating {
        SeverityRating::Nil => 0,
        SeverityRating::Low => 1,
        SeverityRating::Medium => 2,
        SeverityRating::High => 3,
        SeverityRating::Critical => 4,
    }
}

} // verus!
