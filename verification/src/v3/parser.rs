//! The grammar of CVSS v3.0 and v3.1 vector strings.

use crate::errors::CVSSError;
use crate::grammar::{
    collect, collects, has_repeat, is_grammatical, is_rated, is_unbroken, is_vector,
    lemma_ascii_by_tokens, lemma_collected_is_vector, lemma_collects_unique,
    lemma_collects_vector, lemma_join_first, lemma_named_is_ascii, lemma_split_join,
    lemma_split_nonempty, lemma_token_plain, pieces, split, tokenize, tokens_of,
};
use crate::metrics::CVSSv3Metric;
use crate::v3::{text, CVSSv3, Vector, Version};
use vstd::prelude::*;
use vstd::string::*;

verus! {

/// The version that the first token of a vector string names.
pub open spec fn version_of(token: Seq<char>) -> Option<Version> {
    if token == Version::V3.as_str()@ {
        Some(Version::V3)
    } else if token == Version::V31.as_str()@ {
        Some(Version::V31)
    } else {
        None
    }
}

/// What a text stands for as a CVSS v3 vector string. Its first token names
/// the version, and a text whose first token names none is a parsing error.
/// The tokens behind it are metric tokens.
pub open spec fn parses(text: Seq<char>, r: Result<(Version, Seq<CVSSv3Metric>), CVSSError>) -> bool {
    let tokens = split(text);
    match version_of(tokens[0]) {
        None => r == Err::<(Version, Seq<CVSSv3Metric>), CVSSError>(CVSSError::ParsingError),
        Some(version) => match r {
            Ok((v, metrics)) => v == version && collects(
                tokens.skip(1),
                Ok::<Seq<CVSSv3Metric>, CVSSError>(metrics),
            ),
            Err(e) => collects(tokens.skip(1), Err::<Seq<CVSSv3Metric>, CVSSError>(e)),
        },
    }
}

/// A result of parsing with the metrics taken by their view.
pub open spec fn viewed(r: Result<(Version, Vec<CVSSv3Metric>), CVSSError>) -> Result<
    (Version, Seq<CVSSv3Metric>),
    CVSSError,
> {
    match r {
        Ok((version, metrics)) => Ok((version, metrics@)),
        Err(e) => Err(e),
    }
}

/// The version and the metrics of a CVSS v3 vector string, the metrics in
/// canonical order whatever the order of the tokens.
pub fn parse(s: &str) -> (r: Result<(Version, Vec<CVSSv3Metric>), CVSSError>)
    ensures
        parses(s@, viewed(r)),
{
    if !s.is_ascii() {
        proof {
            lemma_not_ascii(s@);
        }
        return Err(CVSSError::ParsingError);
    }
    let ranges = tokenize(s);
    proof {
        lemma_split_nonempty(s@);
    }
    let first = ranges[0];
    assert(pieces(s@, ranges@)[0] == s@.subrange(first.0 as int, first.1 as int));
    proof {
        reveal_strlit("CVSS:3.0");
        reveal_strlit("CVSS:3.1");
        assert("CVSS:3.0"@[7] != "CVSS:3.1"@[7]);
    }
    let version = match Version::from_code(s.substring_ascii(first.0, first.1)) {
        Some(version) => version,
        None => {
            return Err(CVSSError::ParsingError);
        },
    };
    match collect::<CVSSv3Metric>(s, &ranges, 1) {
        Ok(metrics) => Ok((version, metrics)),
        Err(e) => Err(e),
    }
}

/// The CVSS v3 vector that a vector string stands for.
pub fn try_parse(s: &str) -> (r: Result<CVSSv3, CVSSError>)
    ensures
        parses(
            s@,
            match r {
                Ok(cvss) => Ok((cvss.0, cvss.1@)),
                Err(e) => Err(e),
            },
        ),
{
    match parse(s) {
        Ok((version, metrics)) => Ok(CVSSv3(version, Vector::new(metrics))),
        Err(e) => Err(e),
    }
}

/// A text with a character outside ASCII is a parsing error.
proof fn lemma_not_ascii(text: Seq<char>)
    requires
        !vstd::utf8::is_ascii_chars(text),
    ensures
        parses(text, Err::<(Version, Seq<CVSSv3Metric>), CVSSError>(CVSSError::ParsingError)),
{
    let tokens = split(text);
    lemma_split_nonempty(text);
    if version_of(tokens[0]) is Some && is_grammatical::<CVSSv3Metric>(
        tokens.skip(1),
    ) {
        reveal_strlit("CVSS:3.0");
        reveal_strlit("CVSS:3.1");
        assert forall|k: int| 0 <= k < tokens.len() implies vstd::utf8::is_ascii_chars(
            #[trigger] tokens[k],
        ) by {
            if k > 0 {
                assert(tokens.skip(1)[k - 1] == tokens[k]);
                lemma_named_is_ascii::<CVSSv3Metric>(tokens[k]);
            }
        }
        lemma_ascii_by_tokens(text);
    }
}

/// Parsing is a function of the text: a text stands for one result only.
pub proof fn lemma_parse_unique(
    text: Seq<char>,
    a: Result<(Version, Seq<CVSSv3Metric>), CVSSError>,
    b: Result<(Version, Seq<CVSSv3Metric>), CVSSError>,
)
    requires
        parses(text, a),
        parses(text, b),
    ensures
        a == b,
{
    let tokens = split(text);
    if version_of(tokens[0]) is Some {
        let ra: Result<Seq<CVSSv3Metric>, CVSSError> = match a {
            Ok((_, metrics)) => Ok(metrics),
            Err(e) => Err(e),
        };
        let rb: Result<Seq<CVSSv3Metric>, CVSSError> = match b {
            Ok((_, metrics)) => Ok(metrics),
            Err(e) => Err(e),
        };
        lemma_collects_unique(tokens.skip(1), ra, rb);
    }
}

/// What parsing gives is a vector: canonical, and with every mandatory axis.
pub proof fn lemma_parsed_is_vector(text: Seq<char>, version: Version, metrics: Seq<CVSSv3Metric>)
    requires
        parses(text, Ok::<(Version, Seq<CVSSv3Metric>), CVSSError>((version, metrics))),
    ensures
        is_vector(metrics),
{
    lemma_collected_is_vector(split(text).skip(1), metrics);
}

/// The canonical text of a vector parses to that vector, with its version.
pub proof fn lemma_round_trip(version: Version, metrics: Seq<CVSSv3Metric>)
    requires
        is_vector(metrics),
    ensures
        parses(
            text(version, metrics),
            Ok::<(Version, Seq<CVSSv3Metric>), CVSSError>((version, metrics)),
        ),
{
    reveal_strlit("CVSS:3.0");
    reveal_strlit("CVSS:3.1");
    let first = version.as_str()@;
    let rest = tokens_of(metrics);
    assert(crate::grammar::has_axis(metrics, 0));
    let all = seq![first] + rest;
    lemma_join_first(first, rest);
    assert(is_unbroken(first));
    assert forall|i: int| 0 <= i < all.len() implies is_unbroken(#[trigger] all[i]) by {
        if i > 0 {
            lemma_token_plain(metrics[i - 1]);
        }
    }
    lemma_split_join(all);
    assert(all.skip(1) =~= rest);
    lemma_collects_vector(metrics);
    assert("CVSS:3.0"@ != "CVSS:3.1"@) by {
        assert("CVSS:3.0"@[7] != "CVSS:3.1"@[7]);
    }
}

/// Repeating an axis is a duplicate: a text with the token of a version and
/// behind it tokens that all name metrics, two of them of one axis, gives
/// `DuplicateMetrics`.
pub proof fn lemma_repeat_is_duplicate(
    text: Seq<char>,
    r: Result<(Version, Seq<CVSSv3Metric>), CVSSError>,
)
    requires
        version_of(split(text)[0]) is Some,
        is_grammatical::<CVSSv3Metric>(split(text).skip(1)),
        has_repeat::<CVSSv3Metric>(split(text).skip(1)),
        parses(text, r),
    ensures
        r == Err::<(Version, Seq<CVSSv3Metric>), CVSSError>(CVSSError::DuplicateMetrics),
{
}

/// Leaving out a mandatory axis is a parsing error: a text with no two
/// tokens of one axis and no token of some mandatory axis gives
/// `ParsingError`.
pub proof fn lemma_unrated_is_error(
    text: Seq<char>,
    axis: nat,
    r: Result<(Version, Seq<CVSSv3Metric>), CVSSError>,
)
    requires
        axis < 8,
        !is_rated::<CVSSv3Metric>(split(text).skip(1), axis),
        !has_repeat::<CVSSv3Metric>(split(text).skip(1)),
        parses(text, r),
    ensures
        r == Err::<(Version, Seq<CVSSv3Metric>), CVSSError>(CVSSError::ParsingError),
{
}

/// Parsing undoes rendering: whatever a text parses to, the canonical text
/// of that vector parses to the same version and the same metrics.
pub proof fn lemma_reparse(
    source: Seq<char>,
    version: Version,
    metrics: Seq<CVSSv3Metric>,
    r: Result<(Version, Seq<CVSSv3Metric>), CVSSError>,
)
    requires
        parses(source, Ok::<(Version, Seq<CVSSv3Metric>), CVSSError>((version, metrics))),
        parses(text(version, metrics), r),
    ensures
        r == Ok::<(Version, Seq<CVSSv3Metric>), CVSSError>((version, metrics)),
{
    lemma_parsed_is_vector(source, version, metrics);
    lemma_round_trip(version, metrics);
    lemma_parse_unique(text(version, metrics), r, Ok((version, metrics)));
}

} // verus!
