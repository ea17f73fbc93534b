//! The scores of a CVSS v3 vector.
//!
//! Weights are counted in thousandths and scores in tenths, and every
//! formula is worked out exactly: each intermediate value is a whole number
//! of a stated fraction of one.

use crate::errors::CVSSError;
use crate::metrics::{
    CVSSv3Metric, A, AC, AR, AV, C, CR, E, I, IR, MA, MAC, MAV, MC, MI, MPR, MS, MUI, PR, RC, RL, S,
    UI,
};
use crate::natural::{
    lemma_floor_capped, lemma_floor_minus, lemma_floor_plus, lemma_floor_scaled, lemma_pow_base_le,
    lemma_pow_odd, lemma_ten, lemma_ten_adds, lemma_ten_small, lemma_unit_is_ten, quotient_up, ten,
    unit, Natural,
};
use crate::normalize::{roundup, roundup_spec};
use crate::v3::CVSSv3;
use vstd::arithmetic::power::pow;
use vstd::prelude::*;

verus! {

/// The levels of the eight base metrics.
#[derive(Clone, Copy, Debug)]
pub struct Base {
    pub av: AV,
    pub ac: AC,
    pub pr: PR,
    pub ui: UI,
    pub s: S,
    pub c: C,
    pub i: I,
    pub a: A,
}

/// The levels of the three temporal metrics.
#[derive(Clone, Copy, Debug)]
pub struct Temporal {
    pub e: E,
    pub rl: RL,
    pub rc: RC,
}

/// The levels of the eleven environmental metrics.
#[derive(Clone, Copy, Debug)]
pub struct Environmental {
    pub cr: CR,
    pub ir: IR,
    pub ar: AR,
    pub mav: MAV,
    pub mac: MAC,
    pub mpr: MPR,
    pub mui: MUI,
    pub ms: MS,
    pub mc: MC,
    pub mi: MI,
    pub ma: MA,
}

/// The base metrics of a sequence of metrics: its first eight, where they
/// are the metrics of the eight base axes in order.
pub open spec fn base_of(v: Seq<CVSSv3Metric>) -> Option<Base> {
    if v.len() >= 8 {
        match (v[0], v[1], v[2], v[3], v[4], v[5], v[6], v[7]) {
            (
                CVSSv3Metric::AttackVector(av),
                CVSSv3Metric::AttackComplexity(ac),
                CVSSv3Metric::PrivilegesRequired(pr),
                CVSSv3Metric::UserInteraction(ui),
                CVSSv3Metric::Scope(s),
                CVSSv3Metric::Confidentiality(c),
                CVSSv3Metric::Integrity(i),
                CVSSv3Metric::Availability(a),
            ) => Some(Base { av, ac, pr, ui, s, c, i, a }),
            _ => None,
        }
    } else {
        None
    }
}

/// The temporal metrics of a sequence of metrics: those at the places 8 to
/// 10, where they are the metrics of the three temporal axes in order.
pub open spec fn temporal_of(v: Seq<CVSSv3Metric>) -> Option<Temporal> {
    if v.len() >= 11 {
        match (v[8], v[9], v[10]) {
            (
                CVSSv3Metric::ExploitMaturity(e),
                CVSSv3Metric::RemediationLevel(rl),
                CVSSv3Metric::ReportConfidence(rc),
            ) => Some(Temporal { e, rl, rc }),
            _ => None,
        }
    } else {
        None
    }
}

/// The environmental metrics of a sequence of metrics: its last eleven,
/// where it holds twenty-two and they are the metrics of the eleven
/// environmental axes in order.
pub open spec fn environmental_of(v: Seq<CVSSv3Metric>) -> Option<Environmental> {
    if v.len() == 22 {
        match (v[11], v[12], v[13], v[14], v[15], v[16], v[17], v[18], v[19], v[20], v[21]) {
            (
                CVSSv3Metric::ConfidentialityRequirement(cr),
                CVSSv3Metric::IntegrityRequirement(ir),
                CVSSv3Metric::AvailabilityRequirement(ar),
                CVSSv3Metric::ModifiedAttackVector(mav),
                CVSSv3Metric::ModifiedAttackComplexity(mac),
                CVSSv3Metric::ModifiedPrivilegesRequired(mpr),
                CVSSv3Metric::ModifiedUserInteraction(mui),
                CVSSv3Metric::ModifiedScope(ms),
                CVSSv3Metric::ModifiedConfidentiality(mc),
                CVSSv3Metric::ModifiedIntegrity(mi),
                CVSSv3Metric::ModifiedAvailability(ma),
            ) => Some(Environmental { cr, ir, ar, mav, mac, mpr, mui, ms, mc, mi, ma }),
            _ => None,
        }
    } else {
        None
    }
}

/// The lesser of a value and a cap.
pub open spec fn capped(x: int, cap: int) -> int {
    if x < cap {
        x
    } else {
        cap
    }
}

/// The impact sub-score ISS = 1 - (1 - C) * (1 - I) * (1 - A), in units of
/// 10^-9.
pub open spec fn impact_subscore(b: Base) -> int {
    1_000_000_000 - (1000 - b.c.value()) * (1000 - b.i.value()) * (1000 - b.a.value())
}

/// The exploitability 8.22 * AV * AC * UI * PR, the weight of PR taken under
/// the scope, in units of 10^-15.
pub open spec fn exploitability(b: Base) -> int {
    8220 * (b.av.value() * b.ac.value() * b.ui.value() * b.pr.scoped_value(&b.s))
}

/// The impact, in units of 10^-138: 6.42 * ISS under an unchanged scope, and
/// 7.52 * (ISS - 0.029) - 3.25 * (ISS - 0.02)^15 under a changed one.
pub open spec fn impact(b: Base) -> int {
    match b.s {
        S::U => b.s.value() * impact_subscore(b) * ten(126),
        S::C => b.s.value() * (impact_subscore(b) - 29_000_000) * ten(126) - 3250 * pow(
            impact_subscore(b) - 20_000_000,
            15,
        ),
    }
}

/// The base score in tenths: 0 where the impact is not positive, else
/// roundup(min(impact + exploitability, 10)) under an unchanged scope and
/// roundup(min(1.08 * (impact + exploitability), 10)) under a changed one.
pub open spec fn base_score_with(b: Base) -> int {
    if impact(b) <= 0 {
        0
    } else {
        let sum = impact(b) + exploitability(b) * ten(123);
        let total = match b.s {
            S::U => 1000 * sum,
            S::C => 1080 * sum,
        };
        roundup_spec(capped(total, 10 * ten(141)) / ten(136))
    }
}

/// The product E * RL * RC of the temporal weights, in units of 10^-9.
pub open spec fn temporal_product(t: Temporal) -> int {
    t.e.value() * t.rl.value() * t.rc.value()
}

/// The temporal score roundup(base * E * RL * RC) in tenths, for a base
/// score in tenths.
pub open spec fn temporal_score_with(t: Temporal, base: int) -> int {
    roundup_spec(base * temporal_product(t) / 100_000)
}

/// The modified impact sub-score
/// MISS = min(1 - (1 - CR * MC) * (1 - IR * MI) * (1 - AR * MA), 0.915),
/// in units of 10^-18.
pub open spec fn modified_impact_subscore(n: Environmental) -> int {
    capped(
        1_000_000_000_000_000_000 - (1_000_000 - n.cr.value() * n.mc.value()) * (1_000_000
            - n.ir.value() * n.mi.value()) * (1_000_000 - n.ar.value() * n.ma.value()),
        915_000_000_000_000_000,
    )
}

/// The modified exploitability 8.22 * MAV * MAC * MPR * MUI, the weight of
/// MPR taken under the modified scope, in units of 10^-15.
pub open spec fn modified_exploitability(n: Environmental) -> int {
    8220 * (n.mav.value() * n.mac.value() * n.mpr.scoped_value(&n.ms) * n.mui.value())
}

/// What is raised to the thirteenth power under a changed modified scope:
/// 7.52 * (MISS * 0.29) - 3.25 * (MISS * 0.9731 - 0.02), in units of 10^-25.
pub open spec fn modified_impact_root(n: Environmental) -> int {
    n.ms.value() * 290 * modified_impact_subscore(n) * 10 - 3250 * (9731
        * modified_impact_subscore(n) - 200_000_000_000_000_000_000)
}

/// The modified impact, in units of 10^-325: 6.42 * MISS under a modified
/// scope that is unchanged or not defined, and
/// (7.52 * (MISS * 0.29) - 3.25 * (MISS * 0.9731 - 0.02))^13 under a changed
/// one.
pub open spec fn modified_impact(n: Environmental) -> int {
    match n.ms {
        MS::C => pow(modified_impact_root(n), 13),
        _ => n.ms.value() * modified_impact_subscore(n) * ten(304),
    }
}

/// The environmental score in tenths: 0 where the modified impact is not
/// positive, else roundup(roundup(min(s, 10)) * E * RL * RC), where s is the
/// sum of the modified impact and the modified exploitability, taken 1.08
/// times under a changed modified scope.
pub open spec fn environmental_score_with(t: Temporal, n: Environmental) -> int {
    if modified_impact(n) <= 0 {
        0
    } else {
        let sum = modified_impact(n) + modified_exploitability(n) * ten(310);
        let total = match n.ms {
            MS::C => 1080 * sum,
            _ => 1000 * sum,
        };
        let inner = roundup_spec(capped(total, 10 * ten(328)) / ten(323));
        roundup_spec(inner * temporal_product(t) / 100_000)
    }
}

/// The environmental score of a sequence of metrics, in tenths.
pub open spec fn environmental_score_of(v: Seq<CVSSv3Metric>) -> Result<int, CVSSError> {
    match (temporal_of(v), environmental_of(v)) {
        (Some(t), Some(n)) => Ok(environmental_score_with(t, n)),
        _ => Err(CVSSError::IncompleteEnvironmentalScore),
    }
}

/// The base score of a sequence of metrics, in tenths.
pub open spec fn base_score_of(v: Seq<CVSSv3Metric>) -> Result<int, CVSSError> {
    match base_of(v) {
        Some(b) => Ok(base_score_with(b)),
        None => Err(CVSSError::IncompleteBaseScore),
    }
}

/// The temporal score of a sequence of metrics, in tenths.
pub open spec fn temporal_score_of(v: Seq<CVSSv3Metric>) -> Result<int, CVSSError> {
    match (base_of(v), temporal_of(v)) {
        (Some(b), Some(t)) => Ok(temporal_score_with(t, base_score_with(b))),
        (Some(_), None) => Err(CVSSError::IncompleteTemporalScore),
        (None, _) => Err(CVSSError::IncompleteBaseScore),
    }
}

/// A score with its number taken as an integer.
pub open spec fn as_int(r: Result<i64, CVSSError>) -> Result<int, CVSSError> {
    match r {
        Ok(tenths) => Ok(tenths as int),
        Err(e) => Err(e),
    }
}

/// What the powers of ten of the base score come to.
proof fn lemma_base_tens()
    ensures
        ten(126) == 1000 * ten(123),
        ten(136) == ten(126) * 10_000_000_000,
        1000 * ten(136) == ten(126) * 10_000_000_000_000,
        10 * ten(141) == 1_000_000 * ten(136),
        ten(126) == unit(14),
        ten(123) > 0,
{
    lemma_ten_small();
    lemma_ten_adds(3, 123);
    lemma_ten_adds(126, 10);
    lemma_ten_adds(3, 10);
    lemma_ten_adds(126, 13);
    lemma_ten_adds(3, 136);
    lemma_ten_adds(6, 136);
    lemma_ten_adds(5, 136);
    lemma_ten(141);
    lemma_unit_is_ten(14);
    assert(ten(13) == 10_000_000_000_000);
    assert(ten(139) == 1000 * ten(136));
}

/// The base score under an unchanged scope, from the impact sub-score and
/// the exploitability.
proof fn lemma_base_unchanged(b: Base, iss: int, exploitability: int)
    requires
        b.s == S::U,
        iss == impact_subscore(b),
        exploitability == self::exploitability(b),
        iss >= 0,
        exploitability >= 0,
    ensures
        impact(b) <= 0 <==> iss == 0,
        iss > 0 ==> base_score_with(b) == roundup_spec(
            capped((6_420_000 * iss + exploitability) / 10_000_000_000, 1_000_000),
        ),
{
    lemma_base_tens();
    let u = ten(126);
    let v = ten(123);
    assert(6420 * iss * u <= 0 <==> iss == 0) by (nonlinear_arith)
        requires
            iss >= 0,
            u > 0,
    ;
    if iss > 0 {
        let n = 6_420_000 * iss + exploitability;
        let sum = impact(b) + exploitability * v;
        let total = 1000 * sum;
        assert(total == n * u + 0) by (nonlinear_arith)
            requires
                total == 1000 * (6420 * iss * u + exploitability * v),
                u == 1000 * v,
                n == 6_420_000 * iss + exploitability,
        ;
        lemma_floor_plus(n, 0, u, 10_000_000_000);
        lemma_floor_capped(total, ten(136), 1_000_000);
    }
}

/// The base score under a changed scope, from the impact sub-score, the
/// exploitability, and the quotient of 3.51 * 10^9 * (ISS - 0.02)^15 by
/// 10^126.
proof fn lemma_base_changed(b: Base, iss: int, exploitability: int, big: int)
    requires
        b.s == S::C,
        iss == impact_subscore(b),
        exploitability == self::exploitability(b),
        exploitability >= 0,
        big == 3_510_000_000 * pow(iss - 20_000_000, 15),
        big >= 0,
    ensures
        impact(b) > 0 <==> 8_121_600_000 * (iss - 29_000_000) > big / unit(14),
        impact(b) > 0 ==> base_score_with(b) == roundup_spec(
            capped(
                (8_121_600_000 * (iss - 29_000_000) + 1080 * exploitability - quotient_up(
                    big,
                    unit(14),
                )) / 10_000_000_000_000,
                1_000_000,
            ),
        ),
{
    lemma_base_tens();
    let u = ten(126);
    let v = ten(123);
    let p = pow(iss - 20_000_000, 15);
    let j = 8_121_600_000 * (iss - 29_000_000);
    let q = big / u;
    let r = big % u;
    vstd::arithmetic::div_mod::lemma_fundamental_div_mod(big, u);
    vstd::arithmetic::div_mod::lemma_mod_bound(big, u);
    assert(1_080_000 * impact(b) == j * u - big) by (nonlinear_arith)
        requires
            impact(b) == 7520 * (iss - 29_000_000) * u - 3250 * p,
            big == 3_510_000_000 * p,
            j == 8_121_600_000 * (iss - 29_000_000),
    ;
    assert(j * u - big > 0 <==> j > q) by (nonlinear_arith)
        requires
            big == u * q + r,
            0 <= r < u,
    ;
    if impact(b) > 0 {
        let w = j + 1080 * exploitability;
        let sum = impact(b) + exploitability * v;
        let total = 1080 * sum;
        assert(1000 * total == w * u - big) by (nonlinear_arith)
            requires
                total == 1080 * (impact(b) + exploitability * v),
                1_080_000 * impact(b) == j * u - big,
                u == 1000 * v,
                w == j + 1080 * exploitability,
        ;
        assert(total >= 0) by (nonlinear_arith)
            requires
                total == 1080 * (impact(b) + exploitability * v),
                impact(b) > 0,
                exploitability >= 0,
                v > 0,
        ;
        lemma_floor_scaled(total, 1000, ten(136));
        lemma_floor_minus(w, big, u, 10_000_000_000_000);
        lemma_floor_capped(total, ten(136), 1_000_000);
    }
}

/// Under a changed scope, an impact sub-score of zero gives an impact that
/// is not positive.
proof fn lemma_base_changed_zero(b: Base)
    requires
        b.s == S::C,
        impact_subscore(b) == 0,
    ensures
        impact(b) <= 0,
{
    lemma_pow_odd(20_000_000, 15);
    lemma_pow_base_le(20_000_000, 100_000_000, 15);
    lemma_ten_small();
    vstd::arithmetic::power::lemma_pow_multiplies(10, 8, 15);
    lemma_ten_adds(6, 120);
    let p = pow(20_000_000, 15);
    assert(pow(-20_000_000, 15) == -p);
    assert(impact(b) <= 0) by (nonlinear_arith)
        requires
            impact(b) == 7520 * (0 - 29_000_000) * ten(126) - 3250 * (-p),
            0 <= p <= ten(120),
            ten(126) == 1_000_000 * ten(120),
    ;
}

/// The impact sub-score, in units of 10^-9. It is zero where no impact
/// metric is above `N`.
fn impact_subscore_of(b: &Base) -> (iss: i128)
    ensures
        iss == impact_subscore(*b),
        iss == 0 || 220_000_000 <= iss <= 1_000_000_000,
{
    let c = 1000 - b.c.value() as i128;
    let i = 1000 - b.i.value() as i128;
    let a = 1000 - b.a.value() as i128;
    assert(0 <= c * i <= 1000 * 1000) by (nonlinear_arith)
        requires
            0 <= c <= 1000,
            0 <= i <= 1000,
    ;
    assert(0 <= c * i * a <= 1000 * 1000 * 1000) by (nonlinear_arith)
        requires
            0 <= c * i <= 1000 * 1000,
            0 <= a <= 1000,
    ;
    if c == 1000 && i == 1000 && a == 1000 {
        assert(c * i * a == 1_000_000_000) by (nonlinear_arith)
            requires
                c == 1000,
                i == 1000,
                a == 1000,
        ;
    } else {
        assert(c * i * a <= 780 * 1000 * 1000) by (nonlinear_arith)
            requires
                0 <= c <= 1000,
                0 <= i <= 1000,
                0 <= a <= 1000,
                c <= 780 || i <= 780 || a <= 780,
        ;
    }
    1_000_000_000 - c * i * a
}

/// The exploitability, in units of 10^-15.
fn exploitability_of(b: &Base) -> (x: i128)
    ensures
        x == exploitability(*b),
        0 <= x <= 8_220_000_000_000_000,
{
    let av = b.av.value() as i128;
    let ac = b.ac.value() as i128;
    let ui = b.ui.value() as i128;
    let pr = b.pr.scoped_value(&b.s) as i128;
    assert(0 <= av * ac <= 1000 * 1000) by (nonlinear_arith)
        requires
            0 <= av <= 1000,
            0 <= ac <= 1000,
    ;
    assert(0 <= av * ac * ui <= 1000 * 1000 * 1000) by (nonlinear_arith)
        requires
            0 <= av * ac <= 1000 * 1000,
            0 <= ui <= 1000,
    ;
    assert(0 <= av * ac * ui * pr <= 1000 * 1000 * 1000 * 1000) by (nonlinear_arith)
        requires
            0 <= av * ac * ui <= 1000 * 1000 * 1000,
            0 <= pr <= 1000,
    ;
    8220 * (av * ac * ui * pr)
}

/// The quotient of 3.51 * 10^9 * t^15 by 10^126, rounded down and rounded
/// up.
fn power_term(t: u128) -> (r: (i128, i128))
    requires
        t <= 1_000_000_000,
    ensures
        r.0 == (3_510_000_000 * pow(t as int, 15)) / unit(14),
        r.1 == quotient_up(3_510_000_000 * pow(t as int, 15), unit(14)),
        3_510_000_000 * pow(t as int, 15) >= 0,
        0 <= r.0 <= r.1 <= r.0 + 1,
        r.0 < crate::natural::QUOTIENT_MAX,
{
    let power = Natural::power(t, 15);
    let big = power.times(3_510_000).times(1000);
    proof {
        lemma_pow_base_le(t as int, 1_000_000_000, 15);
        crate::natural::lemma_unit(14);
        assert(unit(15) == pow(1_000_000_000, 15));
        assert(big@ == 3_510_000_000 * pow(t as int, 15)) by (nonlinear_arith)
            requires
                big@ == (pow(t as int, 15) * 3_510_000) * 1000,
        ;
        assert(0 <= big@ < unit(14) * crate::natural::QUOTIENT_MAX) by (nonlinear_arith)
            requires
                big@ == 3_510_000_000 * pow(t as int, 15),
                0 <= pow(t as int, 15) <= unit(15),
                unit(15) == 1_000_000_000 * unit(14),
                unit(14) > 0,
        ;
        vstd::arithmetic::div_mod::lemma_div_pos_is_pos(big@, unit(14));
    }
    let (quotient, exact) = big.split(14);
    if exact {
        (quotient as i128, quotient as i128)
    } else {
        (quotient as i128, quotient as i128 + 1)
    }
}

/// The base score of the given levels, in tenths.
pub fn base_score_with_levels(b: &Base) -> (tenths: u64)
    ensures
        tenths == base_score_with(*b),
        tenths <= 100,
{
    let iss = impact_subscore_of(b);
    let exploitability = exploitability_of(b);
    if iss == 0 {
        proof {
            match b.s {
                S::U => lemma_base_unchanged(*b, 0, exploitability as int),
                S::C => lemma_base_changed_zero(*b),
            }
        }
        return 0;
    }
    let scaled = match b.s {
        S::U => {
            proof {
                lemma_base_unchanged(*b, iss as int, exploitability as int);
            }
            (6_420_000 * iss + exploitability) / 10_000_000_000
        },
        S::C => {
            let (down, up) = power_term((iss - 20_000_000) as u128);
            proof {
                lemma_base_changed(
                    *b,
                    iss as int,
                    exploitability as int,
                    3_510_000_000 * pow(iss - 20_000_000, 15),
                );
            }
            let j = 8_121_600_000 * (iss - 29_000_000);
            if j <= down {
                return 0;
            }
            (j + 1080 * exploitability - up) / 10_000_000_000_000
        },
    };
    let capped = if scaled < 1_000_000 {
        scaled
    } else {
        1_000_000
    };
    roundup(capped as u64)
}

/// The temporal score of the given levels, in tenths, for a base score in
/// tenths.
pub fn temporal_score_with_levels(t: &Temporal, base: u64) -> (tenths: u64)
    requires
        base <= 100,
    ensures
        tenths == temporal_score_with(*t, base as int),
        tenths <= 100,
{
    let e = t.e.value() as u64;
    let rl = t.rl.value() as u64;
    let rc = t.rc.value() as u64;
    assert(0 <= e * rl <= 1000 * 1000) by (nonlinear_arith)
        requires
            0 <= e <= 1000,
            0 <= rl <= 1000,
    ;
    assert(0 <= e * rl * rc <= 1000 * 1000 * 1000) by (nonlinear_arith)
        requires
            0 <= e * rl <= 1000 * 1000,
            0 <= rc <= 1000,
    ;
    let product = e * rl * rc;
    assert(0 <= base * product <= 100 * 1_000_000_000) by (nonlinear_arith)
        requires
            0 <= base <= 100,
            0 <= product <= 1_000_000_000,
    ;
    roundup(base * product / 100_000)
}

/// What the powers of ten of the environmental score come to.
proof fn lemma_environmental_tens()
    ensures
        ten(307) == 1000 * ten(304),
        ten(310) == 1000 * ten(307),
        ten(323) == ten(307) * 10_000_000_000_000_000,
        10 * ten(328) == 1_000_000 * ten(323),
        100_000 * ten(310) == ten(315),
        100_000 * ten(323) == ten(315) * 10_000_000_000_000,
        ten(315) == unit(35),
        ten(315) == 1000 * ten(312),
        ten(304) > 0,
        ten(310) > 0,
        ten(312) > 0,
        ten(312) == pow(1_000_000_000_000_000_000_000_000, 13),
{
    lemma_ten_small();
    lemma_ten_adds(3, 304);
    lemma_ten_adds(3, 307);
    lemma_ten_adds(6, 10);
    lemma_ten_adds(307, 16);
    lemma_ten_adds(6, 323);
    lemma_ten(328);
    lemma_ten_adds(5, 310);
    lemma_ten_adds(5, 323);
    lemma_ten_adds(3, 10);
    lemma_ten_adds(315, 13);
    lemma_ten_adds(3, 312);
    lemma_unit_is_ten(35);
    lemma_ten_adds(10, 10);
    lemma_ten_adds(20, 4);
    vstd::arithmetic::power::lemma_pow_multiplies(10, 24, 13);
    assert(ten(16) == 10_000_000_000_000_000);
    assert(ten(13) == 10_000_000_000_000);
    assert(ten(24) == 1_000_000_000_000_000_000_000_000);
    assert(ten(329) == 10 * ten(328));
}

/// The inner value of the environmental score under a modified scope that
/// is unchanged or not defined.
proof fn lemma_environmental_unchanged(n: Environmental, miss: int, exploitability: int)
    requires
        n.ms != MS::C,
        miss == modified_impact_subscore(n),
        exploitability == modified_exploitability(n),
        miss >= 0,
        exploitability >= 0,
    ensures
        modified_impact(n) <= 0 <==> miss == 0,
        miss > 0 ==> capped(
            1000 * (modified_impact(n) + exploitability * ten(310)),
            10 * ten(328),
        ) / ten(323) == capped(
            (6420 * miss + 1_000_000 * exploitability) / 10_000_000_000_000_000,
            1_000_000,
        ),
{
    lemma_environmental_tens();
    let u = ten(307);
    let v = ten(304);
    let w = ten(310);
    assert(6420 * miss * v <= 0 <==> miss == 0) by (nonlinear_arith)
        requires
            miss >= 0,
            v > 0,
    ;
    if miss > 0 {
        let k = 6420 * miss + 1_000_000 * exploitability;
        let total = 1000 * (modified_impact(n) + exploitability * w);
        assert(total == k * u + 0) by (nonlinear_arith)
            requires
                total == 1000 * (6420 * miss * v + exploitability * w),
                u == 1000 * v,
                w == 1000 * u,
                k == 6420 * miss + 1_000_000 * exploitability,
        ;
        lemma_floor_plus(k, 0, u, 10_000_000_000_000_000);
        lemma_floor_capped(total, ten(323), 1_000_000);
    }
}

/// The inner value of the environmental score under a changed modified
/// scope, from the quotient of 1.08 * 10^8 times the thirteenth power by
/// 10^315.
proof fn lemma_environmental_changed(n: Environmental, root: int, exploitability: int, big: int)
    requires
        n.ms == MS::C,
        root == modified_impact_root(n),
        root > 0,
        exploitability == modified_exploitability(n),
        exploitability >= 0,
        big == 108_000_000 * pow(root, 13),
    ensures
        modified_impact(n) > 0,
        big >= 0,
        capped(
            1080 * (modified_impact(n) + exploitability * ten(310)),
            10 * ten(328),
        ) / ten(323) == capped(
            (1080 * exploitability + big / unit(35)) / 10_000_000_000_000,
            1_000_000,
        ),
{
    lemma_environmental_tens();
    lemma_pow_odd(root, 13);
    let u = ten(315);
    let w = ten(310);
    let x = pow(root, 13);
    let p = 1080 * exploitability;
    let total = 1080 * (x + exploitability * w);
    assert(100_000 * total == p * u + big) by (nonlinear_arith)
        requires
            total == 1080 * (x + exploitability * w),
            big == 108_000_000 * x,
            100_000 * w == u,
            p == 1080 * exploitability,
    ;
    assert(total >= 0 && big >= 0) by (nonlinear_arith)
        requires
            total == 1080 * (x + exploitability * w),
            big == 108_000_000 * x,
            x > 0,
            exploitability >= 0,
            w > 0,
    ;
    lemma_floor_scaled(total, 100_000, ten(323));
    lemma_floor_plus(p, big, u, 10_000_000_000_000);
    lemma_floor_capped(total, ten(323), 1_000_000);
}

/// The modified impact sub-score, in units of 10^-18.
fn modified_impact_subscore_of(n: &Environmental) -> (miss: i128)
    ensures
        miss == modified_impact_subscore(*n),
        0 <= miss <= 915_000_000_000_000_000,
{
    let cr = n.cr.value() as i128;
    let mc = n.mc.value() as i128;
    let ir = n.ir.value() as i128;
    let mi = n.mi.value() as i128;
    let ar = n.ar.value() as i128;
    let ma = n.ma.value() as i128;
    assert(0 <= cr * mc <= 1_000_000) by (nonlinear_arith)
        requires
            0 <= cr <= 1500,
            0 <= mc <= 560,
    ;
    assert(0 <= ir * mi <= 1_000_000) by (nonlinear_arith)
        requires
            0 <= ir <= 1500,
            0 <= mi <= 560,
    ;
    assert(0 <= ar * ma <= 1_000_000) by (nonlinear_arith)
        requires
            0 <= ar <= 1500,
            0 <= ma <= 560,
    ;
    let c = 1_000_000 - cr * mc;
    let i = 1_000_000 - ir * mi;
    let a = 1_000_000 - ar * ma;
    assert(0 <= c * i <= 1_000_000 * 1_000_000) by (nonlinear_arith)
        requires
            0 <= c <= 1_000_000,
            0 <= i <= 1_000_000,
    ;
    assert(0 <= c * i * a <= 1_000_000 * 1_000_000 * 1_000_000) by (nonlinear_arith)
        requires
            0 <= c * i <= 1_000_000 * 1_000_000,
            0 <= a <= 1_000_000,
    ;
    let raw = 1_000_000_000_000_000_000 - c * i * a;
    if raw < 915_000_000_000_000_000 {
        raw
    } else {
        915_000_000_000_000_000
    }
}

/// The modified exploitability, in units of 10^-15.
fn modified_exploitability_of(n: &Environmental) -> (x: i128)
    ensures
        x == modified_exploitability(*n),
        0 <= x <= 8_220_000_000_000_000,
{
    let av = n.mav.value() as i128;
    let ac = n.mac.value() as i128;
    let pr = n.mpr.scoped_value(&n.ms) as i128;
    let ui = n.mui.value() as i128;
    assert(0 <= av * ac <= 1000 * 1000) by (nonlinear_arith)
        requires
            0 <= av <= 1000,
            0 <= ac <= 1000,
    ;
    assert(0 <= av * ac * pr <= 1000 * 1000 * 1000) by (nonlinear_arith)
        requires
            0 <= av * ac <= 1000 * 1000,
            0 <= pr <= 1000,
    ;
    assert(0 <= av * ac * pr * ui <= 1000 * 1000 * 1000 * 1000) by (nonlinear_arith)
        requires
            0 <= av * ac * pr <= 1000 * 1000 * 1000,
            0 <= ui <= 1000,
    ;
    8220 * (av * ac * pr * ui)
}

/// The quotient of 1.08 * 10^8 * x^13 by 10^315.
fn root_term(x: u128) -> (q: i128)
    requires
        x <= 1_000_000_000_000_000_000_000_000,
    ensures
        q == (108_000_000 * pow(x as int, 13)) / unit(35),
        0 <= q < crate::natural::QUOTIENT_MAX,
{
    let power = Natural::power(x, 13);
    let big = power.times(108_000_000);
    proof {
        lemma_environmental_tens();
        lemma_pow_base_le(x as int, 1_000_000_000_000_000_000_000_000, 13);
        assert(big@ == 108_000_000 * pow(x as int, 13)) by (nonlinear_arith)
            requires
                big@ == pow(x as int, 13) * 108_000_000,
        ;
        assert(0 <= big@ < unit(35) * crate::natural::QUOTIENT_MAX) by (nonlinear_arith)
            requires
                big@ == 108_000_000 * pow(x as int, 13),
                0 <= pow(x as int, 13) <= ten(312),
                unit(35) == 1000 * ten(312),
                ten(312) > 0,
        ;
        vstd::arithmetic::div_mod::lemma_div_pos_is_pos(big@, unit(35));
    }
    let (quotient, _) = big.split(35);
    quotient as i128
}

/// The environmental score of the given levels, in tenths.
pub fn environmental_score_with_levels(t: &Temporal, n: &Environmental) -> (tenths: u64)
    ensures
        tenths == environmental_score_with(*t, *n),
        tenths <= 100,
{
    let miss = modified_impact_subscore_of(n);
    let exploitability = modified_exploitability_of(n);
    let scaled = match n.ms {
        MS::C => {
            let root = 7520 * 290 * miss * 10 - 3250 * (9731 * miss
                - 200_000_000_000_000_000_000);
            assert(root == modified_impact_root(*n));
            if root <= 0 {
                proof {
                    lemma_pow_odd(root as int, 13);
                }
                return 0;
            }
            let q = root_term(root as u128);
            proof {
                lemma_environmental_changed(
                    *n,
                    root as int,
                    exploitability as int,
                    108_000_000 * pow(root as int, 13),
                );
            }
            (1080 * exploitability + q) / 10_000_000_000_000
        },
        _ => {
            proof {
                lemma_environmental_unchanged(*n, miss as int, exploitability as int);
            }
            if miss == 0 {
                return 0;
            }
            (6420 * miss + 1_000_000 * exploitability) / 10_000_000_000_000_000
        },
    };
    let capped = if scaled < 1_000_000 {
        scaled
    } else {
        1_000_000
    };
    let inner = roundup(capped as u64);
    temporal_score_with_levels(t, inner)
}

impl CVSSv3 {
    /// The levels of the base metrics, where the vector starts with them.
    pub fn base(&self) -> (r: Option<Base>)
        ensures
            r == base_of(self.1@),
    {
        let v = self.1.metrics();
        if v.len() < 8 {
            return None;
        }
        match (v[0], v[1], v[2], v[3], v[4], v[5], v[6], v[7]) {
            (
                CVSSv3Metric::AttackVector(av),
                CVSSv3Metric::AttackComplexity(ac),
                CVSSv3Metric::PrivilegesRequired(pr),
                CVSSv3Metric::UserInteraction(ui),
                CVSSv3Metric::Scope(s),
                CVSSv3Metric::Confidentiality(c),
                CVSSv3Metric::Integrity(i),
                CVSSv3Metric::Availability(a),
            ) => Some(Base { av, ac, pr, ui, s, c, i, a }),
            _ => None,
        }
    }

    /// The levels of the temporal metrics, where the vector holds them in
    /// their places.
    pub fn temporal(&self) -> (r: Option<Temporal>)
        ensures
            r == temporal_of(self.1@),
    {
        let v = self.1.metrics();
        if v.len() < 11 {
            return None;
        }
        match (v[8], v[9], v[10]) {
            (
                CVSSv3Metric::ExploitMaturity(e),
                CVSSv3Metric::RemediationLevel(rl),
                CVSSv3Metric::ReportConfidence(rc),
            ) => Some(Temporal { e, rl, rc }),
            _ => None,
        }
    }

    /// The levels of the environmental metrics, where the vector holds
    /// twenty-two metrics and ends with them.
    pub fn environmental(&self) -> (r: Option<Environmental>)
        ensures
            r == environmental_of(self.1@),
    {
        let v = self.1.metrics();
        if v.len() != 22 {
            return None;
        }
        match (v[11], v[12], v[13], v[14], v[15], v[16], v[17], v[18], v[19], v[20], v[21]) {
            (
                CVSSv3Metric::ConfidentialityRequirement(cr),
                CVSSv3Metric::IntegrityRequirement(ir),
                CVSSv3Metric::AvailabilityRequirement(ar),
                CVSSv3Metric::ModifiedAttackVector(mav),
                CVSSv3Metric::ModifiedAttackComplexity(mac),
                CVSSv3Metric::ModifiedPrivilegesRequired(mpr),
                CVSSv3Metric::ModifiedUserInteraction(mui),
                CVSSv3Metric::ModifiedScope(ms),
                CVSSv3Metric::ModifiedConfidentiality(mc),
                CVSSv3Metric::ModifiedIntegrity(mi),
                CVSSv3Metric::ModifiedAvailability(ma),
            ) => Some(Environmental { cr, ir, ar, mav, mac, mpr, mui, ms, mc, mi, ma }),
            _ => None,
        }
    }

    /// The base score, in tenths.
    pub fn base_score(&self) -> (r: Result<i64, CVSSError>)
        ensures
            as_int(r) == base_score_of(self.1@),
            r matches Ok(tenths) ==> 0 <= tenths <= 100,
    {
        match self.base() {
            Some(b) => Ok(base_score_with_levels(&b) as i64),
            None => Err(CVSSError::IncompleteBaseScore),
        }
    }

    /// The temporal score, in tenths.
    pub fn temporal_score(&self) -> (r: Result<i64, CVSSError>)
        ensures
            as_int(r) == temporal_score_of(self.1@),
            r matches Ok(tenths) ==> 0 <= tenths <= 100,
    {
        match self.base() {
            Some(b) => match self.temporal() {
                Some(t) => Ok(
                    temporal_score_with_levels(&t, base_score_with_levels(&b)) as i64,
                ),
                None => Err(CVSSError::IncompleteTemporalScore),
            },
            None => Err(CVSSError::IncompleteBaseScore),
        }
    }
}

impl CVSSv3 {
    /// The environmental score, in tenths.
    pub fn environmental_score(&self) -> (r: Result<i64, CVSSError>)
        ensures
            as_int(r) == environmental_score_of(self.1@),
            r matches Ok(tenths) ==> 0 <= tenths <= 100,
    {
        match (self.temporal(), self.environmental()) {
            (Some(t), Some(n)) => Ok(environmental_score_with_levels(&t, &n) as i64),
            _ => Err(CVSSError::IncompleteEnvironmentalScore),
        }
    }
}

} // verus!
