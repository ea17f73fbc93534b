use cvss::errors::CVSSError;
use cvss::severity::SeverityRating;
use cvss::v2::severity::SeverityRating as Rating;
use cvss::v2::parser::try_parse;
use cvss::CVSS;
use std::str::FromStr;

#[test]
fn test_base_score_accuracy() {
    let input = "AV:L/AC:M/Au:S/C:P/I:C/A:N";
    let expected = 5.0;
    let vector = CVSS::from_str(input).unwrap();
    let base_score = vector.base_score().unwrap();
    assert!(base_score as f64 / 10.0 == expected);
}

#[test]
fn test_temporal_score_accuracy() {
    let input = "AV:L/AC:M/Au:S/C:P/I:C/A:N/E:POC/RL:W/RC:C";
    let expected = 4.3;
    let vector = CVSS::from_str(input).unwrap();
    let temporal_score = vector.temporal_score().unwrap();
    assert!(temporal_score as f64 / 10.0 == expected);
}

#[test]
fn test_environmental_score_accuracy() {
    let input = "AV:L/AC:M/Au:S/C:P/I:C/A:N/E:POC/RL:W/RC:C/CDP:H/TD:M/CR:H/IR:M/AR:M";
    let expected_environmental = 5.5;
    let vector = CVSS::from_str(input).unwrap();
    let environmental_score = vector.environmental_score().unwrap();
    assert!(environmental_score as f64 / 10.0 == expected_environmental);
}

#[test]
fn test_severity_ratings() {
    let valid_examples = vec![
        ("AV:L/AC:H/Au:M/C:P/I:P/A:P", SeverityRating::Low),
        ("AV:N/AC:L/Au:M/C:P/I:P/A:P", SeverityRating::Medium),
        ("AV:N/AC:L/Au:N/C:P/I:P/A:C", SeverityRating::High),
    ];

    for (vector_text, expected) in &valid_examples {
        let vector = CVSS::from_str(vector_text).unwrap();
        let severity = (&vector).try_into().unwrap();
        assert!(*expected == severity);
    }
}

#[test]
fn v2_scores_in_tenths() {
    let vector = try_parse("AV:L/AC:M/Au:S/C:P/I:C/A:N/E:POC/RL:W/RC:C/CDP:H/TD:M/CR:H/IR:M/AR:M")
        .unwrap();
    assert_eq!(vector.base_score(), Ok(50));
    assert_eq!(vector.temporal_score(), Ok(43));
    assert_eq!(vector.environmental_score(), Ok(55));
}

#[test]
fn v2_full_impact_gives_ten() {
    let vector = try_parse("AV:N/AC:L/Au:N/C:C/I:C/A:C").unwrap();
    assert_eq!(vector.base_score(), Ok(100));
}

#[test]
fn v2_no_impact_gives_zero() {
    let vector = try_parse("AV:N/AC:L/Au:N/C:N/I:N/A:N").unwrap();
    assert_eq!(vector.base_score(), Ok(0));
}

#[test]
fn v2_half_a_tenth_goes_up() {
    // base 3.0 and a temporal product of 0.95 give 2.85 exactly
    let vector = try_parse("AV:L/AC:M/Au:S/C:N/I:P/A:P/E:F/RL:U/RC:C").unwrap();
    assert_eq!(vector.base_score(), Ok(30));
    assert_eq!(vector.temporal_score(), Ok(29));
}

#[test]
fn v2_incomplete_scores() {
    let base_only = try_parse("AV:L/AC:M/Au:S/C:P/I:C/A:N").unwrap();
    assert_eq!(base_only.temporal_score(), Err(CVSSError::IncompleteTemporalScore));
    assert_eq!(base_only.environmental_score(), Err(CVSSError::IncompleteEnvironmentalScore));
    let with_temporal = try_parse("AV:L/AC:M/Au:S/C:P/I:C/A:N/E:POC/RL:W/RC:C").unwrap();
    assert_eq!(with_temporal.environmental_score(), Err(CVSSError::IncompleteEnvironmentalScore));
    let partly_temporal = try_parse("AV:L/AC:M/Au:S/C:P/I:C/A:N/E:POC/RC:C").unwrap();
    assert_eq!(partly_temporal.temporal_score(), Err(CVSSError::IncompleteTemporalScore));
    let empty = cvss::v2::CVSSv2(Vec::new());
    assert_eq!(empty.base_score(), Err(CVSSError::IncompleteBaseScore));
    assert_eq!(empty.temporal_score(), Err(CVSSError::IncompleteBaseScore));
}

#[test]
fn v2_severity_bands() {
    assert_eq!(Rating::try_from(0), Ok(Rating::Low));
    assert_eq!(Rating::try_from(39), Ok(Rating::Low));
    assert_eq!(Rating::try_from(40), Ok(Rating::Medium));
    assert_eq!(Rating::try_from(69), Ok(Rating::Medium));
    assert_eq!(Rating::try_from(70), Ok(Rating::High));
    assert_eq!(Rating::try_from(100), Ok(Rating::High));
    assert_eq!(Rating::try_from(101), Err(CVSSError::InvalidScore));
    assert_eq!(Rating::try_from(-1), Err(CVSSError::InvalidScore));
}

#[test]
fn v2_adjusted_impact_stops_at_ten() {
    let text = "AV:N/AC:L/Au:N/C:C/I:C/A:C/E:H/RL:U/RC:C/CDP:N/TD:H/CR:H/IR:H/AR:H";
    let vector = try_parse(text).unwrap();
    assert_eq!(vector.environmental_score(), Ok(100));
}

#[test]
fn v2_low_requirements_can_give_a_score_below_zero() {
    let text = "AV:L/AC:H/Au:M/C:P/I:N/A:N/E:H/RL:U/RC:C/CDP:N/TD:H/CR:L/IR:L/AR:L";
    let vector = try_parse(text).unwrap();
    assert_eq!(vector.environmental_score(), Ok(-2));
    let text = "AV:L/AC:H/Au:M/C:P/I:N/A:N/E:U/RL:OF/RC:UC/CDP:N/TD:H/CR:L/IR:L/AR:L";
    let vector = try_parse(text).unwrap();
    assert_eq!(vector.environmental_score(), Ok(-1));
    assert_eq!(Rating::try_from(-2), Err(CVSSError::InvalidScore));
}
