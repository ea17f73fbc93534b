//! The two rounding rules of CVSS. Scores are counted in tenths, so that a
//! rounded score is a whole number.

use vstd::prelude::*;

verus! {

/// The CVSS v3 rounding of a value given in hundred-thousandths, in tenths:
/// a value on a tenth stays, any other goes up to the next tenth.
pub open spec fn roundup_spec(scaled: int) -> int {
    if scaled % 10000 == 0 {
        scaled / 10000
    } else {
        scaled / 10000 + 1
    }
}

/// Rounds a value given in hundred-thousandths up to tenths. A value that
/// lies on a tenth is not raised; any other is raised to the tenth above it.
pub fn roundup(scaled: u64) -> (tenths: u64)
    ensures
        tenths == roundup_spec(scaled as int),
        scaled % 10000 == 0 ==> tenths * 10000 == scaled,
        scaled % 10000 != 0 ==> (tenths - 1) * 10000 < scaled < tenths * 10000,
{
    if scaled % 10000 == 0 {
        scaled / 10000
    } else {
        scaled / 10000 + 1
    }
}

/// The CVSS v2 rounding of the fraction `num / den`, in tenths: the nearest
/// tenth, a value halfway between two tenths going away from zero.
pub open spec fn round1_spec(num: int, den: int) -> int {
    if num >= 0 {
        (20 * num + den) / (2 * den)
    } else {
        -((20 * (-num) + den) / (2 * den))
    }
}

/// The greatest numerator that `round_to_1_decimal` takes.
pub const ROUND_NUM_MAX: i128 = 100_000_000_000_000_000_000_000_000_000_000_000;

/// The greatest denominator that `round_to_1_decimal` takes.
pub const ROUND_DEN_MAX: i128 = 1_000_000_000_000_000_000_000_000_000_000;

/// Rounds the fraction `num / den` to the nearest tenth, halves away from
/// zero, and gives the number of tenths.
pub fn round_to_1_decimal(num: i128, den: i128) -> (tenths: i128)
    requires
        0 < den <= ROUND_DEN_MAX,
        -ROUND_NUM_MAX <= num <= ROUND_NUM_MAX,
    ensures
        tenths == round1_spec(num as int, den as int),
{
    if num >= 0 {
        (20 * num + den) / (2 * den)
    } else {
        -((20 * (-num) + den) / (2 * den))
    }
}

/// Rounding to the nearest tenth misses the value by half a tenth at most,
/// and mirrors at zero.
pub proof fn lemma_round1_nearest(num: int, den: int)
    requires
        den > 0,
    ensures
        -den <= 20 * num - 2 * den * round1_spec(num, den) <= den,
        round1_spec(-num, den) == -round1_spec(num, den),
{
    let n = if num >= 0 { num } else { -num };
    let d = 2 * den;
    let t = (20 * n + den) / d;
    vstd::arithmetic::div_mod::lemma_fundamental_div_mod(20 * n + den, d);
    vstd::arithmetic::div_mod::lemma_mod_bound(20 * n + den, d);
    assert(d * (-t) == -(d * t)) by (nonlinear_arith);
    assert(2 * den * t == d * t);
    assert(2 * den * (-t) == d * (-t));
    if num == 0 {
        vstd::arithmetic::div_mod::lemma_basic_div(den, d);
    }
}

} // verus!
