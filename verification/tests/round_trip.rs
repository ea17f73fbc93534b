use cvss::errors::CVSSError;
use cvss::metrics::{CVSSv3Metric, MPR, MS, PR, S};
use cvss::v2;
use cvss::v3;
use cvss::CVSS;
use std::str::FromStr;

#[test]
fn v3_canonical_text_parses_to_the_same_vector() {
    let shuffled = "CVSS:3.0/A:N/I:H/C:H/S:U/UI:N/PR:N/AC:H/AV:N/RC:C/E:F";
    let vector = v3::parser::try_parse(shuffled).unwrap();
    let text = vector.to_string();
    assert_eq!(text, "CVSS:3.0/AV:N/AC:H/PR:N/UI:N/S:U/C:H/I:H/A:N/E:F/RC:C");
    let again = v3::parser::try_parse(&text).unwrap();
    assert_eq!(again.to_string(), text);
    assert_eq!(again.1.metrics().len(), 10);
    for (x, y) in vector.1.metrics().iter().zip(again.1.metrics().iter()) {
        assert!(x == y);
        assert_eq!(x.value(), y.value());
    }
}

#[test]
fn v2_canonical_text_parses_to_the_same_vector() {
    let shuffled = "A:N/I:C/C:P/Au:S/AC:M/AV:L/TD:M/CDP:H";
    let vector = v2::parser::try_parse(shuffled).unwrap();
    let text = vector.to_string();
    assert_eq!(text, "AV:L/AC:M/Au:S/C:P/I:C/A:N/CDP:H/TD:M");
    let again = v2::parser::try_parse(&text).unwrap();
    assert_eq!(again.to_string(), text);
}

#[test]
fn parsing_twice_gives_the_same() {
    let text = "CVSS:3.1/AV:N/AC:H/PR:N/UI:N/S:U/C:H/I:H/A:N";
    let a = CVSS::from_str(text).unwrap();
    let b = CVSS::from_str(text).unwrap();
    assert_eq!(a.to_string(), b.to_string());
    assert_eq!(a.base_score(), b.base_score());
}

#[test]
fn version_is_found_by_the_text() {
    assert!(matches!(CVSS::from_str("CVSS:3.1/AV:N/AC:H/PR:N/UI:N/S:U/C:H/I:H/A:N"), Ok(CVSS::V3(_))));
    assert!(matches!(CVSS::from_str("AV:L/AC:M/Au:S/C:P/I:C/A:N"), Ok(CVSS::V2(_))));
    assert!(matches!(CVSS::from_str("nonsense"), Err(CVSSError::ParsingError)));
    assert!(matches!(
        CVSS::from_str("AV:L/AC:M/Au:S/Au:N/C:P/I:C/A:N"),
        Err(CVSSError::DuplicateMetrics)
    ));
}

#[test]
fn grammar_edges() {
    let parse = v3::parser::parse;
    assert!(matches!(parse(""), Err(CVSSError::ParsingError)));
    assert!(matches!(parse("CVSS:3.1"), Err(CVSSError::ParsingError)));
    assert!(matches!(parse("CVSS:3.1/"), Err(CVSSError::ParsingError)));
    assert!(matches!(parse("CVSS:3.2/AV:N/AC:H/PR:N/UI:N/S:U/C:H/I:H/A:N"), Err(CVSSError::ParsingError)));
    assert!(matches!(parse("AV:N/AC:H/PR:N/UI:N/S:U/C:H/I:H/A:N"), Err(CVSSError::ParsingError)));
    assert!(matches!(parse("CVSS:3.1/AV:N/AC:H/PR:N/UI:N/S:U/C:H/I:H/A:N/"), Err(CVSSError::ParsingError)));
    assert!(matches!(parse("CVSS:3.1/AV:N/AC:H/PR:N/UI:N/S:U/C:H/I:H/A:Q"), Err(CVSSError::ParsingError)));
    assert!(matches!(parse("CVSS:3.1/AV:N/AC:H/PR:N/UI:N/S:U/C:H/I:H/XX:N"), Err(CVSSError::ParsingError)));
    assert!(matches!(parse("CVSS:3.1/AV:N/AC:H/PR:N/UI:N/S:U/C:H/I:H/A:N/MAV:X"), Err(CVSSError::ParsingError)));
    assert!(matches!(parse("CVSS:3.1/AV:N/AC:H/PR:N/UI:N/S:U/C:H/I:H/A:\u{e9}"), Err(CVSSError::ParsingError)));
    // a malformed token outweighs a repeated axis, a repeated axis a missing one
    assert!(matches!(parse("CVSS:3.1/AV:N/AV:N/bad"), Err(CVSSError::ParsingError)));
    assert!(matches!(parse("CVSS:3.1/AV:N/AV:L"), Err(CVSSError::DuplicateMetrics)));
    let v2_parse = v2::parser::parse;
    assert!(matches!(v2_parse("AV:L/AC:M/Au:S/C:P/I:C"), Err(CVSSError::ParsingError)));
    assert!(matches!(v2_parse("AV:L/AC:M/Au:S/C:P/I:C/A:N/RL:ND"), Err(CVSSError::ParsingError)));
    assert!(matches!(v2_parse("AV:L/AC:M/AU:S/C:P/I:C/A:N"), Err(CVSSError::ParsingError)));
    assert!(v2_parse("AV:L/AC:M/Au:S/C:P/I:C/A:N/RL:OF").is_ok());
}

#[test]
fn each_missing_mandatory_metric_is_an_error() {
    let tokens = ["AV:N", "AC:H", "PR:N", "UI:N", "S:U", "C:H", "I:H", "A:N"];
    for skip in 0..tokens.len() {
        let mut text = String::from("CVSS:3.1");
        for (i, token) in tokens.iter().enumerate() {
            if i != skip {
                text.push('/');
                text.push_str(token);
            }
        }
        assert!(matches!(v3::parser::parse(&text), Err(CVSSError::ParsingError)));
    }
    let tokens = ["AV:L", "AC:M", "Au:S", "C:P", "I:C", "A:N"];
    for skip in 0..tokens.len() {
        let mut text = String::new();
        for (i, token) in tokens.iter().enumerate() {
            if i != skip {
                if !text.is_empty() {
                    text.push('/');
                }
                text.push_str(token);
            }
        }
        assert!(matches!(v2::parser::parse(&text), Err(CVSSError::ParsingError)));
    }
}

#[test]
fn weights_and_messages() {
    assert_eq!(PR::L.scoped_value(&S::C), 680);
    assert_eq!(PR::H.scoped_value(&S::C), 500);
    assert_eq!(PR::N.scoped_value(&S::C), 850);
    assert_eq!(PR::L.scoped_value(&S::U), 620);
    assert_eq!(MPR::L.scoped_value(&MS::C), 680);
    assert_eq!(MPR::H.scoped_value(&MS::X), 270);
    assert_eq!(MPR::X.scoped_value(&MS::C), 1000);
    assert_eq!(CVSSv3Metric::Scope(S::C).value(), 7520);
    assert_eq!(cvss::v2::metrics::CR::H.value(), 1510);
    assert_eq!(CVSSError::InvalidScore.message(), "score not within expected range 0.0 -> 10.0");
}

#[test]
fn codes_name_levels_axes_and_versions() {
    assert_eq!(PR::from_code("L"), Some(PR::L));
    assert_eq!(PR::from_code("X"), None);
    assert_eq!(PR::from_code(""), None);
    assert_eq!(cvss::v2::metrics::E::from_code("POC"), Some(cvss::v2::metrics::E::POC));
    assert_eq!(cvss::v2::metrics::RL::from_code("ND"), None);
    assert_eq!(cvss::v2::metrics::TD::from_code("N"), None);
    assert_eq!(cvss::v2::metrics::TD::from_code("ND"), Some(cvss::v2::metrics::TD::ND));
    assert_eq!(v3::Version::from_code("CVSS:3.0"), Some(v3::Version::V3));
    assert_eq!(v3::Version::from_code("CVSS:3.1"), Some(v3::Version::V31));
    assert_eq!(v3::Version::from_code("CVSS:3"), None);
    let metric: Option<CVSSv3Metric> = cvss::grammar::decode("MPR:H");
    assert!(matches!(metric, Some(CVSSv3Metric::ModifiedPrivilegesRequired(MPR::H))));
    let metric: Option<CVSSv3Metric> = cvss::grammar::decode("MPR:");
    assert!(metric.is_none());
    let metric: Option<CVSSv3Metric> = cvss::grammar::decode("MPR");
    assert!(metric.is_none());
    let metric: Option<CVSSv3Metric> = cvss::grammar::decode("S:U:C");
    assert!(metric.is_none());
    let metric: Option<cvss::v2::metrics::CVSSv2Metric> = cvss::grammar::decode("Au:M");
    assert!(matches!(
        metric,
        Some(cvss::v2::metrics::CVSSv2Metric::Authentication(cvss::v2::metrics::AU::M))
    ));
    assert!(cvss::grammar::same("AV", "AV"));
    assert!(!cvss::grammar::same("AV", "AC"));
    assert!(!cvss::grammar::same("AV", "AVV"));
    assert_eq!(CVSSv3Metric::ModifiedScope(MS::X).to_string(), "MS:X");
    assert_eq!(cvss::grammar::spell(&CVSSv3Metric::Scope(S::C)), "S:C");
}

#[test]
fn metrics_compare_by_axis() {
    let low = CVSSv3Metric::PrivilegesRequired(PR::L);
    let high = CVSSv3Metric::PrivilegesRequired(PR::H);
    let scope = CVSSv3Metric::Scope(S::U);
    assert!(low == high);
    assert!(low != scope);
    assert!(low < scope);
    assert!(!(low < high));
    assert!(low <= high);
    assert!(scope > high);
}

#[test]
fn vectors_give_their_metrics() {
    let vector = v3::parser::try_parse("CVSS:3.1/AV:N/AC:H/PR:N/UI:N/S:U/C:H/I:H/A:N").unwrap();
    assert_eq!(vector.len(), 8);
    assert!(matches!(vector[4], CVSSv3Metric::Scope(S::U)));
    let tokens: Vec<String> = vector.into_iter().map(|m| m.to_string()).collect();
    assert_eq!(tokens, vec!["AV:N", "AC:H", "PR:N", "UI:N", "S:U", "C:H", "I:H", "A:N"]);
    let vector = v2::parser::try_parse("AV:L/AC:M/Au:S/C:P/I:C/A:N").unwrap();
    assert_eq!(vector.len(), 6);
    assert_eq!(vector[2].to_string(), "Au:S");
    assert_eq!(vector[2].value(), 560);
}
