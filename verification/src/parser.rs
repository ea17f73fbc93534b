//! Parsing a vector string whose version is not known beforehand.

use crate::errors::CVSSError;
use crate::v2;
use crate::v3;
use crate::CVSS;
use vstd::prelude::*;

verus! {

/// Whether the text is no CVSS v3 vector string.
pub open spec fn is_not_v3(text: Seq<char>) -> bool {
    exists|e: CVSSError|
        #[trigger] v3::parser::parses(
            text,
            Err::<(v3::Version, Seq<v3::CVSSv3Metric>), CVSSError>(e),
        )
}

/// What a text stands for when its version is open. A CVSS v3 vector string
/// stands for its CVSS v3 vector. Any other text stands for what it stands
/// for as a CVSS v2 vector string, be that a vector or an error.
pub open spec fn parses(text: Seq<char>, r: Result<CVSS, CVSSError>) -> bool {
    match r {
        Ok(CVSS::V3(cvss)) => v3::parser::parses(
            text,
            Ok::<(v3::Version, Seq<v3::CVSSv3Metric>), CVSSError>((cvss.0, cvss.1@)),
        ),
        Ok(CVSS::V2(cvss)) => is_not_v3(text) && v2::parser::parses(
            text,
            Ok::<Seq<v2::metrics::CVSSv2Metric>, CVSSError>(cvss@),
        ),
        Err(e) => is_not_v3(text) && v2::parser::parses(
            text,
            Err::<Seq<v2::metrics::CVSSv2Metric>, CVSSError>(e),
        ),
    }
}

/// The vector that a vector string of either version stands for: the text is
/// read as CVSS v3 first, and as CVSS v2 where that fails.
pub fn parse(s: &str) -> (r: Result<CVSS, CVSSError>)
    ensures
        parses(s@, r),
{
    match v3::parser::try_parse(s) {
        Ok(cvss) => Ok(CVSS::V3(cvss)),
        Err(e) => {
            assert(v3::parser::parses(
                s@,
                Err::<(v3::Version, Seq<v3::CVSSv3Metric>), CVSSError>(e),
            ));
            match v2::parser::try_parse(s) {
                Ok(cvss) => Ok(CVSS::V2(cvss)),
                Err(e) => Err(e),
            }
        },
    }
}

/// What a result says of the text as a CVSS v3 vector string.
pub open spec fn v3_part(text: Seq<char>, r: Result<CVSS, CVSSError>) -> Result<
    (v3::Version, Seq<v3::CVSSv3Metric>),
    CVSSError,
> {
    match r {
        Ok(CVSS::V3(cvss)) => Ok((cvss.0, cvss.1@)),
        _ => Err(
            choose|e: CVSSError|
                #[trigger] v3::parser::parses(
                    text,
                    Err::<(v3::Version, Seq<v3::CVSSv3Metric>), CVSSError>(e),
                ),
        ),
    }
}

/// What a result says of the text as a CVSS v2 vector string.
pub open spec fn v2_part(r: Result<CVSS, CVSSError>) -> Result<
    Seq<v2::metrics::CVSSv2Metric>,
    CVSSError,
> {
    match r {
        Ok(CVSS::V2(cvss)) => Ok(cvss@),
        Ok(CVSS::V3(_)) => Err(CVSSError::ParsingError),
        Err(e) => Err(e),
    }
}

/// Parsing is a function of the text: two results for one text agree in
/// their version, their metrics and their error.
pub proof fn lemma_parse_unique(text: Seq<char>, a: Result<CVSS, CVSSError>, b: Result<CVSS, CVSSError>)
    requires
        parses(text, a),
        parses(text, b),
    ensures
        v3_part(text, a) == v3_part(text, b),
        v2_part(a) == v2_part(b),
{
    v3::parser::lemma_parse_unique(text, v3_part(text, a), v3_part(text, b));
    if !(a matches Ok(CVSS::V3(_))) {
        v2::parser::lemma_parse_unique(text, v2_part(a), v2_part(b));
    }
}

/// Scoring is a function of the text: two vectors that one text stands for
/// have the same scores and the same severity rating.
pub proof fn lemma_scores_unique(text: Seq<char>, a: CVSS, b: CVSS)
    requires
        parses(text, Ok::<CVSS, CVSSError>(a)),
        parses(text, Ok::<CVSS, CVSSError>(b)),
    ensures
        crate::base_score_of(a) == crate::base_score_of(b),
        crate::temporal_score_of(a) == crate::temporal_score_of(b),
        crate::environmental_score_of(a) == crate::environmental_score_of(b),
        crate::severity::rating_of(a) == crate::severity::rating_of(b),
{
    lemma_parse_unique(text, Ok(a), Ok(b));
}

/// What parsing gives is a vector of its version.
pub proof fn lemma_parsed_is_vector(text: Seq<char>, cvss: CVSS)
    requires
        parses(text, Ok::<CVSS, CVSSError>(cvss)),
    ensures
        crate::is_vector(cvss),
{
    match cvss {
        CVSS::V2(c) => v2::parser::lemma_parsed_is_vector(text, c@),
        CVSS::V3(c) => v3::parser::lemma_parsed_is_vector(text, c.0, c.1@),
    }
}

/// Parsing undoes rendering: the canonical text of a vector parses to a
/// vector of the same version with the same metrics.
pub proof fn lemma_round_trip(cvss: CVSS, r: Result<CVSS, CVSSError>)
    requires
        crate::is_vector(cvss),
        parses(crate::text_of(cvss), r),
    ensures
        match (cvss, r) {
            (CVSS::V2(a), Ok(CVSS::V2(b))) => a@ == b@,
            (CVSS::V3(a), Ok(CVSS::V3(b))) => a.0 == b.0 && a.1@ == b.1@,
            _ => false,
        },
{
    let text = crate::text_of(cvss);
    match cvss {
        CVSS::V3(a) => {
            v3::parser::lemma_round_trip(a.0, a.1@);
            v3::parser::lemma_parse_unique(
                text,
                v3_part(text, r),
                Ok::<(v3::Version, Seq<v3::CVSSv3Metric>), CVSSError>((a.0, a.1@)),
            );
        },
        CVSS::V2(a) => {
            lemma_v2_text_is_not_v3(a@);
            assert(v3::parser::parses(
                text,
                Err::<(v3::Version, Seq<v3::CVSSv3Metric>), CVSSError>(CVSSError::ParsingError),
            ));
            v3::parser::lemma_parse_unique(
                text,
                v3_part(text, r),
                Err::<(v3::Version, Seq<v3::CVSSv3Metric>), CVSSError>(CVSSError::ParsingError),
            );
            v2::parser::lemma_round_trip(a@);
            v2::parser::lemma_parse_unique(
                text,
                v2_part(r),
                Ok::<Seq<v2::metrics::CVSSv2Metric>, CVSSError>(a@),
            );
        },
    }
}

/// The canonical text of a CVSS v2 vector does not start with the token of
/// a version of CVSS v3.
proof fn lemma_v2_text_is_not_v3(metrics: Seq<v2::metrics::CVSSv2Metric>)
    requires
        crate::grammar::is_vector(metrics),
    ensures
        v3::parser::version_of(crate::grammar::split(v2::text(metrics))[0]) is None,
{
    let tokens = crate::grammar::tokens_of(metrics);
    assert(crate::grammar::has_axis(metrics, 0));
    assert forall|i: int| 0 <= i < tokens.len() implies crate::grammar::is_unbroken(
        #[trigger] tokens[i],
    ) by {
        crate::grammar::lemma_token_plain(metrics[i]);
    }
    crate::grammar::lemma_split_join(tokens);
    let first = metrics[0];
    let word = crate::grammar::token(first);
    assert(tokens[0] == word);
    reveal_strlit("CVSS:3.0");
    reveal_strlit("CVSS:3.1");
    first.lemma_axis_code_shape();
    if v3::parser::version_of(word) is Some {
        assert(word.len() == 8);
        assert(word[4] == ':');
        crate::grammar::lemma_token_parts(first, word, 4);
    }
}

} // verus!
