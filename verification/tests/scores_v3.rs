use cvss::errors::CVSSError;
use cvss::metrics::{A, AC, AV, C, I, PR, S, UI};
use cvss::severity::SeverityRating;
use cvss::v3::parser::try_parse;
use cvss::v3::score::{base_score_with_levels, Base};
use cvss::CVSS;
use std::str::FromStr;

const FULL: &str = "CVSS:3.1/AV:N/AC:H/PR:N/UI:N/S:U/C:H/I:H/A:N/E:F/RL:U/RC:C/CR:H/IR:H/AR:M/MAV:N/MAC:L/MPR:N/MUI:N/MS:U/MC:H/MI:H/MA:H";

#[test]
fn v3_known_base_score() {
    let vector = CVSS::from_str("CVSS:3.1/AV:N/AC:H/PR:N/UI:N/S:U/C:H/I:H/A:N").unwrap();
    assert_eq!(vector.base_score(), Ok(74));
    let severity: SeverityRating = (&vector).try_into().unwrap();
    assert_eq!(severity, SeverityRating::High);
}

#[test]
fn v3_known_full_scores() {
    let vector = CVSS::from_str(FULL).unwrap();
    assert_eq!(vector.base_score(), Ok(74));
    assert_eq!(vector.temporal_score(), Ok(72));
    assert_eq!(vector.environmental_score(), Ok(96));
}

#[test]
fn v3_changed_scope_scores() {
    let vector = try_parse("CVSS:3.0/AV:N/AC:L/PR:N/UI:N/S:C/C:H/I:H/A:H").unwrap();
    assert_eq!(vector.base_score(), Ok(100));
    let vector = try_parse("CVSS:3.1/AV:N/AC:L/PR:L/UI:R/S:C/C:L/I:L/A:N").unwrap();
    assert_eq!(vector.base_score(), Ok(54));
    let vector = try_parse("CVSS:3.1/AV:P/AC:H/PR:H/UI:R/S:C/C:N/I:N/A:L").unwrap();
    assert_eq!(vector.base_score(), Ok(18));
}

#[test]
fn v3_no_impact_gives_zero() {
    let vector = try_parse("CVSS:3.1/AV:N/AC:L/PR:N/UI:N/S:U/C:N/I:N/A:N").unwrap();
    assert_eq!(vector.base_score(), Ok(0));
    let vector = try_parse("CVSS:3.1/AV:N/AC:L/PR:N/UI:N/S:C/C:N/I:N/A:N").unwrap();
    assert_eq!(vector.base_score(), Ok(0));
    let severity: SeverityRating = (&CVSS::V3(vector)).try_into().unwrap();
    assert_eq!(severity, SeverityRating::Nil);
}

#[test]
fn v3_changed_modified_scope() {
    let text = "CVSS:3.1/AV:N/AC:H/PR:N/UI:N/S:U/C:H/I:H/A:N/E:X/RL:X/RC:X/CR:X/IR:X/AR:X/MAV:N/MAC:L/MPR:N/MUI:N/MS:C/MC:N/MI:N/MA:N";
    let vector = try_parse(text).unwrap();
    assert_eq!(vector.environmental_score(), Ok(42));
    let text = "CVSS:3.1/AV:N/AC:H/PR:N/UI:N/S:U/C:H/I:H/A:N/E:X/RL:X/RC:X/CR:X/IR:X/AR:X/MAV:N/MAC:L/MPR:N/MUI:N/MS:C/MC:H/MI:N/MA:N";
    let vector = try_parse(text).unwrap();
    assert_eq!(vector.environmental_score(), Ok(0));
}

#[test]
fn v3_incomplete_scores() {
    let base_only = try_parse("CVSS:3.1/AV:N/AC:H/PR:N/UI:N/S:U/C:H/I:H/A:N").unwrap();
    assert_eq!(base_only.temporal_score(), Err(CVSSError::IncompleteTemporalScore));
    assert_eq!(base_only.environmental_score(), Err(CVSSError::IncompleteEnvironmentalScore));
    let partly = try_parse("CVSS:3.1/AV:N/AC:H/PR:N/UI:N/S:U/C:H/I:H/A:N/CR:H/IR:H/AR:M").unwrap();
    assert_eq!(partly.temporal_score(), Err(CVSSError::IncompleteTemporalScore));
    let empty = cvss::v3::CVSSv3(cvss::v3::Version::V31, cvss::v3::Vector::new(Vec::new()));
    assert_eq!(empty.base_score(), Err(CVSSError::IncompleteBaseScore));
    assert_eq!(empty.temporal_score(), Err(CVSSError::IncompleteBaseScore));
}

#[test]
fn v3_severity_bands() {
    assert_eq!(SeverityRating::try_from(0), Ok(SeverityRating::Nil));
    assert_eq!(SeverityRating::try_from(1), Ok(SeverityRating::Low));
    assert_eq!(SeverityRating::try_from(39), Ok(SeverityRating::Low));
    assert_eq!(SeverityRating::try_from(40), Ok(SeverityRating::Medium));
    assert_eq!(SeverityRating::try_from(69), Ok(SeverityRating::Medium));
    assert_eq!(SeverityRating::try_from(70), Ok(SeverityRating::High));
    assert_eq!(SeverityRating::try_from(89), Ok(SeverityRating::High));
    assert_eq!(SeverityRating::try_from(90), Ok(SeverityRating::Critical));
    assert_eq!(SeverityRating::try_from(100), Ok(SeverityRating::Critical));
    assert_eq!(SeverityRating::try_from(101), Err(CVSSError::InvalidScore));
    assert_eq!(SeverityRating::try_from(-1), Err(CVSSError::InvalidScore));
}

fn roundup(input: f64) -> f64 {
    let score = (input * 100_000.0) as u64;
    if score % 10000 == 0 {
        (score as f64) / 100_000.0
    } else {
        (((score as f64) / 10_000.0).floor() + 1.0) / 10.0
    }
}

fn floating_base_score(b: &Base) -> f64 {
    let weight = |thousandths: u32| thousandths as f64 / 1000.0;
    let iss = 1.0
        - ((1.0 - weight(b.c.value())) * (1.0 - weight(b.i.value())) * (1.0 - weight(b.a.value())));
    let impact = match b.s {
        S::C => weight(b.s.value()) * (iss - 0.029) - 3.25 * (iss - 0.02).powf(15.0),
        S::U => weight(b.s.value()) * iss,
    };
    let exploitability = 8.22
        * weight(b.av.value())
        * weight(b.ac.value())
        * weight(b.ui.value())
        * weight(b.pr.scoped_value(&b.s));
    if impact <= 0.0 {
        0.0
    } else {
        match b.s {
            S::U => roundup((impact + exploitability).min(10.0)),
            S::C => roundup((1.08 * (impact + exploitability)).min(10.0)),
        }
    }
}

#[test]
fn v3_base_scores_agree_with_floating_point() {
    let mut count = 0;
    for av in [AV::N, AV::A, AV::L, AV::P] {
        for ac in [AC::L, AC::H] {
            for pr in [PR::N, PR::L, PR::H] {
                for ui in [UI::N, UI::R] {
                    for s in [S::U, S::C] {
                        for c in [C::H, C::L, C::N] {
                            for i in [I::H, I::L, I::N] {
                                for a in [A::H, A::L, A::N] {
                                    let b = Base { av, ac, pr, ui, s, c, i, a };
                                    let exact = base_score_with_levels(&b);
                                    assert!(exact as f64 / 10.0 == floating_base_score(&b));
                                    count += 1;
                                }
                            }
                        }
                    }
                }
            }
        }
    }
    assert_eq!(count, 2592);
}
