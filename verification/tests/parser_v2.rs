use cvss::errors::CVSSError;
use cvss::v2::metrics::CVSSv2Metric::{
    AccessComplexity, AccessVector, Authentication, Availability, AvailabilityRequirement,
    CollateralDamagePotential, Confidentiality, ConfidentialityRequirement, Exploitability,
    Integrity, IntegrityRequirement, RemediationLevel, ReportConfidence, TargetDistribution,
};
use cvss::v2::metrics::{A, AC, AR, AU, AV, C, CDP, CR, E, I, IR, RC, RL, TD};
use cvss::v2::parser::parse;

#[test]
fn test_can_parse_cvss_v2_base() {
    let result = parse("AV:L/AC:H/Au:N/C:C/I:C/A:C");
    assert!(result.is_ok());
    if let Ok(vector) = result {
        assert!(vector[0] == AccessVector(AV::L));
        assert!(vector[1] == AccessComplexity(AC::H));
        assert!(vector[2] == Authentication(AU::N));
        assert!(vector[3] == Confidentiality(C::C));
        assert!(vector[4] == Integrity(I::C));
        assert!(vector[5] == Availability(A::C));
    }
}

#[test]
fn test_can_parse_cvss_v2_full() {
    let input = "AV:A/AC:M/Au:S/C:P/I:C/A:P/E:POC/RL:W/RC:UR/CDP:MH/TD:M/CR:M/IR:M/AR:M";
    let result = parse(input);
    assert!(result.is_ok());
    if let Ok(vector) = result {
        assert!(vector[0] == AccessVector(AV::L));
        assert!(vector[1] == AccessComplexity(AC::H));
        assert!(vector[2] == Authentication(AU::N));
        assert!(vector[3] == Confidentiality(C::C));
        assert!(vector[4] == Integrity(I::C));
        assert!(vector[5] == Availability(A::C));
        assert!(vector[6] == Exploitability(E::POC));
        assert!(vector[7] == RemediationLevel(RL::W));
        assert!(vector[8] == ReportConfidence(RC::UR));
        assert!(vector[9] == CollateralDamagePotential(CDP::MH));
        assert!(vector[10] == TargetDistribution(TD::M));
        assert!(vector[11] == ConfidentialityRequirement(CR::M));
        assert!(vector[12] == IntegrityRequirement(IR::M));
        assert!(vector[13] == AvailabilityRequirement(AR::M));
    }
}

#[test]
fn test_wont_accept_invalid_input() {
    let input = "AV:AA/E:POR:WR:RCP:HT:M/CR:/IR:M/AR:M";
    let result = parse(input);
    assert!(matches!(result, Err(CVSSError::ParsingError)));
}

#[test]
fn test_wont_allow_repeat_metrics() {
    let input = "AV:L/AC:H/Au:N/Au:N/C:C/I:C/A:C";
    let result = parse(input);
    assert!(matches!(result, Err(CVSSError::DuplicateMetrics)));
}

#[test]
fn test_can_detect_missing_mandatory_fields() {
    let result = parse("AV:L/AC:H/C:C/I:C/A:C");
    assert!(result.is_err());
    assert!(matches!(result, Err(CVSSError::ParsingError)));
}
