//! The scores of a CVSS v2 vector.
//!
//! Weights are counted in thousandths and scores in tenths, and every
//! formula is worked out exactly: each intermediate value is a whole number
//! of a stated fraction of one.

use crate::errors::CVSSError;
use crate::normalize::{round1_spec, round_to_1_decimal};
use crate::v2::metrics::{CVSSv2Metric, A, AC, AR, AU, AV, C, CDP, CR, E, I, IR, RC, RL, TD};
use crate::v2::CVSSv2;
use vstd::prelude::*;

verus! {

/// The levels of the six base metrics.
#[derive(Clone, Copy, Debug)]
pub struct Base {
    pub av: AV,
    pub ac: AC,
    pub au: AU,
    pub c: C,
    pub i: I,
    pub a: A,
}

/// The levels of the three temporal metrics.
#[derive(Clone, Copy, Debug)]
pub struct Temporal {
    pub e: E,
    pub rl: RL,
    pub rc: RC,
}

/// The levels of the five environmental metrics.
#[derive(Clone, Copy, Debug)]
pub struct Environmental {
    pub cdp: CDP,
    pub td: TD,
    pub cr: CR,
    pub ir: IR,
    pub ar: AR,
}

/// The base metrics of a sequence of metrics: its first six, where they are
/// the metrics of the six base axes in order.
pub open spec fn base_of(v: Seq<CVSSv2Metric>) -> Option<Base> {
    if v.len() >= 6 {
        match (v[0], v[1], v[2], v[3], v[4], v[5]) {
            (
                CVSSv2Metric::AccessVector(av),
                CVSSv2Metric::AccessComplexity(ac),
                CVSSv2Metric::Authentication(au),
                CVSSv2Metric::Confidentiality(c),
                CVSSv2Metric::Integrity(i),
                CVSSv2Metric::Availability(a),
            ) => Some(Base { av, ac, au, c, i, a }),
            _ => None,
        }
    } else {
        None
    }
}

/// The temporal metrics of a sequence of metrics: those at the places 6 to
/// 8, where they are the metrics of the three temporal axes in order.
pub open spec fn temporal_of(v: Seq<CVSSv2Metric>) -> Option<Temporal> {
    if v.len() >= 9 {
        match (v[6], v[7], v[8]) {
            (
                CVSSv2Metric::Exploitability(e),
                CVSSv2Metric::RemediationLevel(rl),
                CVSSv2Metric::ReportConfidence(rc),
            ) => Some(Temporal { e, rl, rc }),
            _ => None,
        }
    } else {
        None
    }
}

/// The environmental metrics of a sequence of metrics: its last five, where
/// it holds fourteen and they are the metrics of the five environmental axes
/// in order.
pub open spec fn environmental_of(v: Seq<CVSSv2Metric>) -> Option<Environmental> {
    if v.len() == 14 {
        match (v[9], v[10], v[11], v[12], v[13]) {
            (
                CVSSv2Metric::CollateralDamagePotential(cdp),
                CVSSv2Metric::TargetDistribution(td),
                CVSSv2Metric::ConfidentialityRequirement(cr),
                CVSSv2Metric::IntegrityRequirement(ir),
                CVSSv2Metric::AvailabilityRequirement(ar),
            ) => Some(Environmental { cdp, td, cr, ir, ar }),
            _ => None,
        }
    } else {
        None
    }
}

/// One, in the unit of the impact: an impact is counted in units of 10^-20.
pub open spec fn impact_unit() -> int {
    100_000_000_000_000_000_000
}

/// The impact 10.41 * (1 - (1 - C) * (1 - I) * (1 - A)), in units of 10^-20.
pub open spec fn impact(b: Base) -> int {
    1041 * (1_000_000_000 - (1000 - b.c.value()) * (1000 - b.i.value()) * (1000 - b.a.value()))
        * 1_000_000_000
}

/// The adjusted impact
/// min(10, 10.41 * (1 - (1 - C * CR) * (1 - I * IR) * (1 - A * AR))),
/// in units of 10^-20.
pub open spec fn adjusted_impact(b: Base, n: Environmental) -> int {
    let raw = 1041 * (1_000_000_000_000_000_000 - (1_000_000 - b.c.value() * n.cr.value()) * (
    1_000_000 - b.i.value() * n.ir.value()) * (1_000_000 - b.a.value() * n.ar.value()));
    if raw < 10 * impact_unit() {
        raw
    } else {
        10 * impact_unit()
    }
}

/// The exploitability 20 * AV * AC * Au, in units of 10^-9.
pub open spec fn exploitability(b: Base) -> int {
    20 * (b.av.value() * b.ac.value() * b.au.value())
}

/// The base score round1((0.6 * impact + 0.4 * exploitability - 1.5) * f)
/// in tenths, for an impact in units of 10^-20, where f is 0 for an impact
/// of 0 and 1.176 for any other.
pub open spec fn base_score_with(b: Base, impact: int) -> int {
    if impact == 0 {
        0
    } else {
        round1_spec(
            1176 * (6 * impact + 4 * exploitability(b) * 100_000_000_000 - 15 * impact_unit()),
            1_000_000_000_000_000_000_000_000,
        )
    }
}

/// The temporal score round1(base * E * RL * RC) in tenths, for a base score
/// in tenths.
pub open spec fn temporal_score_with(t: Temporal, base: int) -> int {
    round1_spec(base * t.e.value() * t.rl.value() * t.rc.value(), 10_000_000_000)
}

/// The environmental score round1((t + (10 - t) * CDP) * TD) in tenths, for
/// an adjusted temporal score t in tenths.
pub open spec fn environmental_score_with(n: Environmental, t: int) -> int {
    round1_spec((t * 1000 + (100 - t) * n.cdp.value()) * n.td.value(), 10_000_000)
}

/// The base score of a sequence of metrics, in tenths.
pub open spec fn base_score_of(v: Seq<CVSSv2Metric>) -> Result<int, CVSSError> {
    match base_of(v) {
        Some(b) => Ok(base_score_with(b, impact(b))),
        None => Err(CVSSError::IncompleteBaseScore),
    }
}

/// The temporal score of a sequence of metrics, in tenths.
pub open spec fn temporal_score_of(v: Seq<CVSSv2Metric>) -> Result<int, CVSSError> {
    match (base_of(v), temporal_of(v)) {
        (Some(b), Some(t)) => Ok(temporal_score_with(t, base_score_with(b, impact(b)))),
        (Some(_), None) => Err(CVSSError::IncompleteTemporalScore),
        (None, _) => Err(CVSSError::IncompleteBaseScore),
    }
}

/// The environmental score of a sequence of metrics, in tenths: the
/// environmental formula on the temporal score that the adjusted impact
/// gives in place of the impact.
pub open spec fn environmental_score_of(v: Seq<CVSSv2Metric>) -> Result<int, CVSSError> {
    match (base_of(v), temporal_of(v), environmental_of(v)) {
        (Some(b), Some(t), Some(n)) => Ok(
            environmental_score_with(
                n,
                temporal_score_with(t, base_score_with(b, adjusted_impact(b, n))),
            ),
        ),
        _ => Err(CVSSError::IncompleteEnvironmentalScore),
    }
}

/// A score with its number taken as an integer.
pub open spec fn as_int(r: Result<i64, CVSSError>) -> Result<int, CVSSError> {
    match r {
        Ok(tenths) => Ok(tenths as int),
        Err(e) => Err(e),
    }
}

/// The base score in tenths that the given levels give with an impact in
/// units of 10^-20.
fn calculate_base_score(b: &Base, impact: i128) -> (tenths: i64)
    requires
        0 <= impact <= 11 * impact_unit(),
    ensures
        tenths == base_score_with(*b, impact as int),
        -100 <= tenths <= 200,
{
    if impact == 0 {
        return 0;
    }
    let av = b.av.value() as i128;
    let ac = b.ac.value() as i128;
    let au = b.au.value() as i128;
    assert(0 <= av * ac <= 1000 * 1000) by (nonlinear_arith)
        requires
            0 <= av <= 1000,
            0 <= ac <= 1000,
    ;
    assert(0 <= av * ac * au <= 1000 * 1000 * 1000) by (nonlinear_arith)
        requires
            0 <= av * ac <= 1000 * 1000,
            0 <= au <= 1000,
    ;
    let exploitability = 20 * (av * ac * au);
    let raw = 1176 * (6 * impact + 4 * exploitability * 100_000_000_000
        - 1_500_000_000_000_000_000_000);
    let tenths = round_to_1_decimal(raw, 1_000_000_000_000_000_000_000_000);
    proof {
        crate::normalize::lemma_round1_nearest(raw as int, 1_000_000_000_000_000_000_000_000);
    }
    tenths as i64
}

/// The temporal score in tenths that the given levels give with a base
/// score in tenths.
fn calculate_temporal_score(t: &Temporal, base: i64) -> (tenths: i64)
    requires
        -100 <= base <= 200,
    ensures
        tenths == temporal_score_with(*t, base as int),
        -100 <= tenths <= 200,
{
    let e = t.e.value() as i128;
    let rl = t.rl.value() as i128;
    let rc = t.rc.value() as i128;
    let b = base as i128;
    assert(-100 * 1000 <= b * e <= 200 * 1000) by (nonlinear_arith)
        requires
            -100 <= b <= 200,
            0 <= e <= 1000,
    ;
    assert(-100 * 1000 * 1000 <= b * e * rl <= 200 * 1000 * 1000) by (nonlinear_arith)
        requires
            -100 * 1000 <= b * e <= 200 * 1000,
            0 <= rl <= 1000,
    ;
    assert(-100 * 1000 * 1000 * 1000 <= b * e * rl * rc <= 200 * 1000 * 1000 * 1000)
        by (nonlinear_arith)
        requires
            -100 * 1000 * 1000 <= b * e * rl <= 200 * 1000 * 1000,
            0 <= rc <= 1000,
    ;
    let tenths = round_to_1_decimal(b * e * rl * rc, 10_000_000_000);
    proof {
        crate::normalize::lemma_round1_nearest(b * e * rl * rc, 10_000_000_000);
    }
    tenths as i64
}

impl CVSSv2 {
    /// The levels of the base metrics, where the vector starts with them.
    pub fn base(&self) -> (r: Option<Base>)
        ensures
            r == base_of(self@),
    {
        if self.0.len() < 6 {
            return None;
        }
        match (self.0[0], self.0[1], self.0[2], self.0[3], self.0[4], self.0[5]) {
            (
                CVSSv2Metric::AccessVector(av),
                CVSSv2Metric::AccessComplexity(ac),
                CVSSv2Metric::Authentication(au),
                CVSSv2Metric::Confidentiality(c),
                CVSSv2Metric::Integrity(i),
                CVSSv2Metric::Availability(a),
            ) => Some(Base { av, ac, au, c, i, a }),
            _ => None,
        }
    }

    /// The levels of the temporal metrics, where the vector holds them in
    /// their places.
    pub fn temporal(&self) -> (r: Option<Temporal>)
        ensures
            r == temporal_of(self@),
    {
        if self.0.len() < 9 {
            return None;
        }
        match (self.0[6], self.0[7], self.0[8]) {
            (
                CVSSv2Metric::Exploitability(e),
                CVSSv2Metric::RemediationLevel(rl),
                CVSSv2Metric::ReportConfidence(rc),
            ) => Some(Temporal { e, rl, rc }),
            _ => None,
        }
    }

    /// The levels of the environmental metrics, where the vector holds
    /// fourteen metrics and ends with them.
    pub fn environmental(&self) -> (r: Option<Environmental>)
        ensures
            r == environmental_of(self@),
    {
        if self.0.len() != 14 {
            return None;
        }
        match (self.0[9], self.0[10], self.0[11], self.0[12], self.0[13]) {
            (
                CVSSv2Metric::CollateralDamagePotential(cdp),
                CVSSv2Metric::TargetDistribution(td),
                CVSSv2Metric::ConfidentialityRequirement(cr),
                CVSSv2Metric::IntegrityRequirement(ir),
                CVSSv2Metric::AvailabilityRequirement(ar),
            ) => Some(Environmental { cdp, td, cr, ir, ar }),
            _ => None,
        }
    }

    /// The impact, in units of 10^-20.
    fn impact(b: &Base) -> (impact: i128)
        ensures
            impact == self::impact(*b),
            0 <= impact <= 11 * impact_unit(),
    {
        let c = 1000 - b.c.value() as i128;
        let i = 1000 - b.i.value() as i128;
        let a = 1000 - b.a.value() as i128;
        assert(0 <= c * i <= 1000 * 1000) by (nonlinear_arith)
            requires
                0 <= c <= 1000,
                0 <= i <= 1000,
        ;
        assert(0 <= c * i * a <= 1000 * 1000 * 1000) by (nonlinear_arith)
            requires
                0 <= c * i <= 1000 * 1000,
                0 <= a <= 1000,
        ;
        1041 * (1_000_000_000 - c * i * a) * 1_000_000_000
    }

    /// The adjusted impact, in units of 10^-20.
    fn adjusted_impact(b: &Base, n: &Environmental) -> (impact: i128)
        ensures
            impact == self::adjusted_impact(*b, *n),
            0 <= impact <= 11 * impact_unit(),
    {
        let c = b.c.value() as i128;
        let i = b.i.value() as i128;
        let a = b.a.value() as i128;
        let cr = n.cr.value() as i128;
        let ir = n.ir.value() as i128;
        let ar = n.ar.value() as i128;
        assert(0 <= c * cr <= 1_000_000) by (nonlinear_arith)
            requires
                0 <= c <= 660,
                0 <= cr <= 1510,
        ;
        assert(0 <= i * ir <= 1_000_000) by (nonlinear_arith)
            requires
                0 <= i <= 660,
                0 <= ir <= 1510,
        ;
        assert(0 <= a * ar <= 1_000_000) by (nonlinear_arith)
            requires
                0 <= a <= 660,
                0 <= ar <= 1510,
        ;
        let x = 1_000_000 - c * cr;
        let y = 1_000_000 - i * ir;
        let z = 1_000_000 - a * ar;
        assert(0 <= x * y <= 1_000_000 * 1_000_000) by (nonlinear_arith)
            requires
                0 <= x <= 1_000_000,
                0 <= y <= 1_000_000,
        ;
        assert(0 <= x * y * z <= 1_000_000 * 1_000_000 * 1_000_000) by (nonlinear_arith)
            requires
                0 <= x * y <= 1_000_000 * 1_000_000,
                0 <= z <= 1_000_000,
        ;
        let raw = 1041 * (1_000_000_000_000_000_000 - x * y * z);
        if raw < 1_000_000_000_000_000_000_000 {
            raw
        } else {
            1_000_000_000_000_000_000_000
        }
    }

    /// The base score, in tenths.
    pub fn base_score(&self) -> (r: Result<i64, CVSSError>)
        ensures
            as_int(r) == base_score_of(self@),
    {
        match self.base() {
            Some(b) => {
                let impact = Self::impact(&b);
                Ok(calculate_base_score(&b, impact))
            },
            None => Err(CVSSError::IncompleteBaseScore),
        }
    }

    /// The temporal score, in tenths.
    pub fn temporal_score(&self) -> (r: Result<i64, CVSSError>)
        ensures
            as_int(r) == temporal_score_of(self@),
    {
        match self.base() {
            Some(b) => match self.temporal() {
                Some(t) => {
                    let impact = Self::impact(&b);
                    let base = calculate_base_score(&b, impact);
                    Ok(calculate_temporal_score(&t, base))
                },
                None => Err(CVSSError::IncompleteTemporalScore),
            },
            None => Err(CVSSError::IncompleteBaseScore),
        }
    }

    /// The environmental score, in tenths.
    pub fn environmental_score(&self) -> (r: Result<i64, CVSSError>)
        ensures
            as_int(r) == environmental_score_of(self@),
    {
        match (self.base(), self.temporal(), self.environmental()) {
            (Some(b), Some(t), Some(n)) => {
                let impact = Self::adjusted_impact(&b, &n);
                let base = calculate_base_score(&b, impact);
                let temporal = calculate_temporal_score(&t, base) as i128;
                let cdp = n.cdp.value() as i128;
                let td = n.td.value() as i128;
                assert(-100_000 <= (100 - temporal) * cdp <= 200 * 1000) by (nonlinear_arith)
                    requires
                        -100 <= temporal <= 200,
                        0 <= cdp <= 1000,
                ;
                let inner = temporal * 1000 + (100 - temporal) * cdp;
                assert(-400_000_000 <= inner * td <= 400_000_000) by (nonlinear_arith)
                    requires
                        -400_000 <= inner <= 400_000,
                        0 <= td <= 1000,
                ;
                let tenths = round_to_1_decimal(inner * td, 10_000_000);
                proof {
                    crate::normalize::lemma_round1_nearest(inner * td, 10_000_000);
                }
                Ok(tenths as i64)
            },
            _ => Err(CVSSError::IncompleteEnvironmentalScore),
        }
    }
}

} // verus!
