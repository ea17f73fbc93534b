//! The grammar of CVSS v2 vector strings.

use crate::errors::CVSSError;
use crate::grammar::{
    collect, collects, has_axis, has_repeat, is_grammatical, is_rated, is_unbroken, is_vector,
    lemma_ascii_by_tokens, lemma_collected_is_vector, lemma_collects_unique,
    lemma_collects_vector, lemma_named_is_ascii, lemma_split_join, lemma_token_plain, split,
    tokenize, tokens_of, viewed,
};
use crate::v2::metrics::CVSSv2Metric;
use crate::v2::{text, CVSSv2};
use vstd::prelude::*;
use vstd::string::*;

verus! {

/// What a text stands for as a CVSS v2 vector string: all its tokens are
/// metric tokens.
pub open spec fn parses(text: Seq<char>, r: Result<Seq<CVSSv2Metric>, CVSSError>) -> bool {
    collects(split(text), r)
}

/// The metrics of a CVSS v2 vector string, in canonical order whatever the
/// order of the tokens.
pub fn parse(s: &str) -> (r: Result<Vec<CVSSv2Metric>, CVSSError>)
    ensures
        parses(s@, viewed(r)),
{
    if !s.is_ascii() {
        proof {
            lemma_not_ascii(s@);
        }
        return Err(CVSSError::ParsingError);
    }
    let ranges = tokenize(s);
    assert(crate::grammar::pieces(s@, ranges@).skip(0) =~= split(s@));
    collect::<CVSSv2Metric>(s, &ranges, 0)
}

/// The CVSS v2 vector that a vector string stands for.
pub fn try_parse(s: &str) -> (r: Result<CVSSv2, CVSSError>)
    ensures
        parses(
            s@,
            match r {
                Ok(cvss) => Ok(cvss@),
                Err(e) => Err(e),
            },
        ),
{
    match parse(s) {
        Ok(metrics) => Ok(CVSSv2(metrics)),
        Err(e) => Err(e),
    }
}

/// A text with a character outside ASCII is a parsing error.
proof fn lemma_not_ascii(text: Seq<char>)
    requires
        !vstd::utf8::is_ascii_chars(text),
    ensures
        parses(text, Err::<Seq<CVSSv2Metric>, CVSSError>(CVSSError::ParsingError)),
{
    let tokens = split(text);
    if is_grammatical::<CVSSv2Metric>(tokens) {
        assert forall|k: int| 0 <= k < tokens.len() implies vstd::utf8::is_ascii_chars(
            #[trigger] tokens[k],
        ) by {
            lemma_named_is_ascii::<CVSSv2Metric>(tokens[k]);
        }
        lemma_ascii_by_tokens(text);
    }
}

/// Parsing is a function of the text: a text stands for one result only.
pub proof fn lemma_parse_unique(
    text: Seq<char>,
    a: Result<Seq<CVSSv2Metric>, CVSSError>,
    b: Result<Seq<CVSSv2Metric>, CVSSError>,
)
    requires
        parses(text, a),
        parses(text, b),
    ensures
        a == b,
{
    lemma_collects_unique(split(text), a, b);
}

/// What parsing gives is a vector: canonical, and with every mandatory axis.
pub proof fn lemma_parsed_is_vector(text: Seq<char>, metrics: Seq<CVSSv2Metric>)
    requires
        parses(text, Ok::<Seq<CVSSv2Metric>, CVSSError>(metrics)),
    ensures
        is_vector(metrics),
{
    lemma_collected_is_vector(split(text), metrics);
}

/// The canonical text of a vector parses to that vector.
pub proof fn lemma_round_trip(metrics: Seq<CVSSv2Metric>)
    requires
        is_vector(metrics),
    ensures
        parses(text(metrics), Ok::<Seq<CVSSv2Metric>, CVSSError>(metrics)),
{
    let tokens = tokens_of(metrics);
    assert(has_axis(metrics, 0));
    assert forall|i: int| 0 <= i < tokens.len() implies is_unbroken(#[trigger] tokens[i]) by {
        lemma_token_plain(metrics[i]);
    }
    lemma_split_join(tokens);
    lemma_collects_vector(metrics);
}

/// Repeating an axis is a duplicate: a text whose tokens all name metrics,
/// two of them of one axis, gives `DuplicateMetrics`.
pub proof fn lemma_repeat_is_duplicate(text: Seq<char>, r: Result<Seq<CVSSv2Metric>, CVSSError>)
    requires
        is_grammatical::<CVSSv2Metric>(split(text)),
        has_repeat::<CVSSv2Metric>(split(text)),
        parses(text, r),
    ensures
        r == Err::<Seq<CVSSv2Metric>, CVSSError>(CVSSError::DuplicateMetrics),
{
}

/// Leaving out a mandatory axis is a parsing error: a text with no two
/// tokens of one axis and no token of some mandatory axis gives
/// `ParsingError`.
pub proof fn lemma_unrated_is_error(
    text: Seq<char>,
    axis: nat,
    r: Result<Seq<CVSSv2Metric>, CVSSError>,
)
    requires
        axis < 6,
        !is_rated::<CVSSv2Metric>(split(text), axis),
        !has_repeat::<CVSSv2Metric>(split(text)),
        parses(text, r),
    ensures
        r == Err::<Seq<CVSSv2Metric>, CVSSError>(CVSSError::ParsingError),
{
}

/// Parsing undoes rendering: whatever a text parses to, the canonical text
/// of that vector parses to the same metrics.
pub proof fn lemma_reparse(
    source: Seq<char>,
    metrics: Seq<CVSSv2Metric>,
    r: Result<Seq<CVSSv2Metric>, CVSSError>,
)
    requires
        parses(source, Ok::<Seq<CVSSv2Metric>, CVSSError>(metrics)),
        parses(text(metrics), r),
    ensures
        r == Ok::<Seq<CVSSv2Metric>, CVSSError>(metrics),
{
    lemma_parsed_is_vector(source, metrics);
    lemma_round_trip(metrics);
    lemma_parse_unique(text(metrics), r, Ok(metrics));
}

} // verus!
