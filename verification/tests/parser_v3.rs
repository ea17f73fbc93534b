use cvss::errors::CVSSError;
use cvss::v3::parser::parse;
use cvss::v3::Version;

#[test]
fn test_can_parse_base_metrics() {
    let input = "CVSS:3.1/AV:N/AC:H/PR:N/UI:N/S:U/C:H/I:H/A:N";
    let result = parse(input);
    assert!(result.is_ok());
    if let Ok((version, _vector)) = result {
        assert!(match version {
            Version::V31 => true,
            _ => false,
        });
    }
}

#[test]
fn test_can_parse_full_metrics() {
    let input = "CVSS:3.1/AV:N/AC:H/PR:N/UI:N/S:U/C:H/I:H/A:N/E:F/RL:U/RC:C/CR:H/IR:H/AR:M/MAV:N/MAC:L/MPR:N/MUI:N/MS:U/MC:H/MI:H/MA:H";
    let result = parse(input);
    assert!(result.is_ok());
    if let Ok((version, _vector)) = result {
        assert!(match version {
            Version::V31 => true,
            _ => false,
        });
    }
}

#[test]
fn parser_test_wont_accept_invalid_input() {
    let input = "CVSS:3.1/AV:NA:/R:/INS:/:/:H/A:E:F/RL:U/RC:C/MUI:N/MS:U/MC:H/MI:H/MA:H";
    let result = parse(input);
    assert!(result.is_err());
    assert!(match result {
        Err(CVSSError::ParsingError) => true,
        _ => false,
    });
}

#[test]
fn test_can_detect_duplicate_metrics() {
    let input = "CVSS:3.1/AV:N/AC:H/AC:L/PR:N/UI:N/S:U/C:H/I:H/A:N";
    let result = parse(input);
    assert!(result.is_err());
    assert!(match result {
        Err(CVSSError::DuplicateMetrics) => true,
        _ => false,
    });
}

#[test]
fn parser_test_can_detect_missing_mandatory_fields() {
    let input = "CVSS:3.1/AV:N/AC:H/S:U/C:H/I:H/A:N";
    let result = parse(input);
    assert!(result.is_err());
    assert!(match result {
        Err(CVSSError::ParsingError) => true,
        _ => false,
    });
}
