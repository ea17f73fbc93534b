//! Natural numbers of any size, as far as exact scores need them: products
//! and powers, and the division by a power of ten.
//!
//! A number is held as limbs in base 10^9, the least significant first.

use vstd::arithmetic::div_mod::lemma_fundamental_div_mod_converse;
use vstd::arithmetic::power::{lemma_pow_positive, pow};
use vstd::prelude::*;

verus! {

/// The base of the limbs.
pub const BASE: u64 = 1_000_000_000;

/// The greatest factor that a number can be multiplied by in one step.
pub const FACTOR_MAX: u128 = 1_000_000_000_000_000_000_000_000_000;

/// A bound on the quotients that a division gives.
pub const QUOTIENT_MAX: u128 = 1_000_000_000_000_000_000_000_000_000;

/// The weight of the limb at place `k`: 10^(9k).
pub open spec fn unit(k: nat) -> int {
    pow(BASE as int, k)
}

/// The number that limbs stand for.
pub open spec fn value(limbs: Seq<u64>) -> int
    decreases limbs.len(),
{
    if limbs.len() == 0 {
        0
    } else {
        limbs[0] + BASE * value(limbs.drop_first())
    }
}

/// Whether every limb is below the base.
pub open spec fn is_reduced(limbs: Seq<u64>) -> bool {
    forall|i: int| 0 <= i < limbs.len() ==> #[trigger] limbs[i] < BASE
}

/// The weights of the limbs are positive, and each is the base times the one
/// before it.
pub proof fn lemma_unit(k: nat)
    ensures
        unit(0) == 1,
        unit(k) > 0,
        unit(k + 1) == BASE * unit(k),
{
    reveal(pow);
    lemma_pow_positive(BASE as int, k);
    assert(pow(BASE as int, 0) == 1);
    assert(pow(BASE as int, k + 1) == BASE * pow(BASE as int, ((k + 1) - 1) as nat));
}

/// The weights of the limbs go up with the place.
pub proof fn lemma_unit_increases(j: nat, k: nat)
    requires
        j <= k,
    ensures
        0 < unit(j) <= unit(k),
    decreases k - j,
{
    lemma_unit(j);
    if j < k {
        lemma_unit_increases(j + 1, k);
    }
}

/// A limb added at the top counts with the weight of its place.
pub proof fn lemma_value_push(limbs: Seq<u64>, top: u64)
    ensures
        value(limbs.push(top)) == value(limbs) + top * unit(limbs.len()),
    decreases limbs.len(),
{
    lemma_unit(limbs.len());
    if limbs.len() == 0 {
        assert(limbs.push(top).drop_first() =~= Seq::<u64>::empty());
        assert(value(Seq::<u64>::empty()) == 0);
        assert(limbs.push(top)[0] == top);
        assert(value(limbs.push(top)) == top + BASE * value(limbs.push(top).drop_first()));
    } else {
        let rest = limbs.drop_first();
        lemma_value_push(rest, top);
        lemma_unit(rest.len());
        assert(limbs.push(top).drop_first() =~= rest.push(top));
        assert(BASE * (value(rest) + top * unit(rest.len())) == BASE * value(rest) + top * (BASE
            * unit(rest.len()))) by (nonlinear_arith);
    }
}

/// Reduced limbs stand for a number below the weight of the place behind
/// them.
pub proof fn lemma_value_bound(limbs: Seq<u64>)
    requires
        is_reduced(limbs),
    ensures
        0 <= value(limbs) < unit(limbs.len()),
    decreases limbs.len(),
{
    lemma_unit(0);
    if limbs.len() > 0 {
        let rest = limbs.drop_first();
        assert forall|i: int| 0 <= i < rest.len() implies #[trigger] rest[i] < BASE by {
            assert(rest[i] == limbs[i + 1]);
        }
        lemma_value_bound(rest);
        lemma_unit(rest.len());
        assert(limbs[0] < BASE);
        assert(BASE * value(rest) <= BASE * (unit(rest.len()) - 1)) by (nonlinear_arith)
            requires
                value(rest) <= unit(rest.len()) - 1,
        ;
        assert(BASE * value(rest) >= 0) by (nonlinear_arith)
            requires
                value(rest) >= 0,
        ;
    }
}

/// The limbs below a place and those from it on: the former count as they
/// are, the latter with the weight of the place.
pub proof fn lemma_value_split(limbs: Seq<u64>, k: nat)
    requires
        k <= limbs.len(),
    ensures
        value(limbs) == value(limbs.take(k as int)) + unit(k) * value(limbs.skip(k as int)),
    decreases limbs.len() - k,
{
    if k == limbs.len() {
        assert(limbs.take(k as int) =~= limbs);
        assert(limbs.skip(k as int) =~= Seq::<u64>::empty());
        assert(unit(k) * 0 == 0) by (nonlinear_arith);
    } else {
        lemma_value_split(limbs, k + 1);
        let low = limbs.take(k as int);
        let high = limbs.skip(k as int);
        assert(limbs.take(k as int + 1) =~= low.push(limbs[k as int]));
        lemma_value_push(low, limbs[k as int]);
        assert(high.drop_first() =~= limbs.skip(k as int + 1));
        assert(high[0] == limbs[k as int]);
        lemma_unit(k);
        assert(unit(k) * (high[0] + BASE * value(high.drop_first())) == high[0] * unit(k) + (BASE
            * unit(k)) * value(high.drop_first())) by (nonlinear_arith);
    }
}

/// Reduced limbs stand for zero exactly when they are all zero.
pub proof fn lemma_value_zero(limbs: Seq<u64>)
    requires
        is_reduced(limbs),
    ensures
        value(limbs) == 0 <==> forall|i: int| 0 <= i < limbs.len() ==> #[trigger] limbs[i] == 0,
    decreases limbs.len(),
{
    if limbs.len() > 0 {
        let rest = limbs.drop_first();
        assert forall|i: int| 0 <= i < rest.len() implies #[trigger] rest[i] < BASE by {
            assert(rest[i] == limbs[i + 1]);
        }
        lemma_value_zero(rest);
        lemma_value_bound(rest);
        assert(BASE * value(rest) >= 0) by (nonlinear_arith)
            requires
                value(rest) >= 0,
        ;
        if value(limbs) == 0 {
            assert(value(rest) == 0) by (nonlinear_arith)
                requires
                    BASE * value(rest) == 0,
            ;
            assert forall|i: int| 0 <= i < limbs.len() implies #[trigger] limbs[i] == 0 by {
                if i > 0 {
                    assert(rest[i - 1] == limbs[i]);
                }
            }
        }
        if forall|i: int| 0 <= i < limbs.len() ==> #[trigger] limbs[i] == 0 {
            assert forall|i: int| 0 <= i < rest.len() implies #[trigger] rest[i] == 0 by {
                assert(rest[i] == limbs[i + 1]);
            }
            assert(limbs[0] == 0);
        }
    }
}

/// The power of ten with the given exponent.
pub open spec fn ten(k: nat) -> int {
    pow(10, k)
}

/// The powers of ten are positive, and each is ten times the one before it.
pub proof fn lemma_ten(k: nat)
    ensures
        ten(0) == 1,
        ten(k) > 0,
        ten(k + 1) == 10 * ten(k),
{
    reveal(pow);
    lemma_pow_positive(10, k);
    assert(pow(10, 0) == 1);
    assert(pow(10, k + 1) == 10 * pow(10, ((k + 1) - 1) as nat));
}

/// The power of ten of a sum is the product of the powers of ten.
pub proof fn lemma_ten_adds(j: nat, k: nat)
    ensures
        ten(j + k) == ten(j) * ten(k),
        ten(j) > 0,
        ten(k) > 0,
{
    vstd::arithmetic::power::lemma_pow_adds(10, j, k);
    lemma_ten(j);
    lemma_ten(k);
}

/// The small powers of ten, written out.
pub proof fn lemma_ten_small()
    ensures
        ten(1) == 10,
        ten(2) == 100,
        ten(3) == 1_000,
        ten(4) == 10_000,
        ten(5) == 100_000,
        ten(6) == 1_000_000,
        ten(7) == 10_000_000,
        ten(8) == 100_000_000,
        ten(9) == 1_000_000_000,
        ten(10) == 10_000_000_000,
{
    lemma_ten(0);
    lemma_ten(1);
    lemma_ten(2);
    lemma_ten(3);
    lemma_ten(4);
    lemma_ten(5);
    lemma_ten(6);
    lemma_ten(7);
    lemma_ten(8);
    lemma_ten(9);
}

/// The weight of the limb at place `k` is 10^(9k).
pub proof fn lemma_unit_is_ten(k: nat)
    ensures
        unit(k) == ten(9 * k),
{
    lemma_ten_small();
    vstd::arithmetic::power::lemma_pow_multiplies(10, 9, k);
}

/// Of two numbers that are not negative, the greater has the greater power.
pub proof fn lemma_pow_base_le(a: int, b: int, e: nat)
    requires
        0 <= a <= b,
    ensures
        0 <= pow(a, e) <= pow(b, e),
    decreases e,
{
    reveal(pow);
    if e > 0 {
        lemma_pow_base_le(a, b, (e - 1) as nat);
        let x = pow(a, (e - 1) as nat);
        let y = pow(b, (e - 1) as nat);
        assert(0 <= a * x <= b * y) by (nonlinear_arith)
            requires
                0 <= a <= b,
                0 <= x <= y,
        ;
    }
}

/// An odd power has the sign of its base.
pub proof fn lemma_pow_odd(x: int, e: nat)
    requires
        e % 2 == 1,
    ensures
        x > 0 ==> pow(x, e) > 0,
        x == 0 ==> pow(x, e) == 0,
        x < 0 ==> pow(x, e) < 0,
        pow(-x, e) == -pow(x, e),
    decreases e,
{
    reveal(pow);
    let once = pow(x, (e - 1) as nat);
    let once_neg = pow(-x, (e - 1) as nat);
    assert(pow(x, e) == x * once);
    assert(pow(-x, e) == (-x) * once_neg);
    if e == 1 {
        assert(once == 1 && once_neg == 1);
    } else {
        let twice = pow(x, (e - 2) as nat);
        let twice_neg = pow(-x, (e - 2) as nat);
        assert(once == x * twice);
        assert(once_neg == (-x) * twice_neg);
        lemma_pow_odd(x, (e - 2) as nat);
        assert((-x) * ((-x) * (-twice)) == -(x * (x * twice))) by (nonlinear_arith);
        assert(x > 0 && twice > 0 ==> x * (x * twice) > 0) by (nonlinear_arith);
        assert(x < 0 && twice < 0 ==> x * (x * twice) < 0) by (nonlinear_arith);
        assert(x == 0 ==> x * (x * twice) == 0) by (nonlinear_arith);
    }
}

/// The quotient of `b` by `u`, rounded up.
pub open spec fn quotient_up(b: int, u: int) -> int {
    if b % u == 0 {
        b / u
    } else {
        b / u + 1
    }
}

/// Dividing `p * u + b` by `u * d` comes to dividing `p` plus the quotient
/// of `b` by `u`, by `d`.
pub proof fn lemma_floor_plus(p: int, b: int, u: int, d: int)
    requires
        u > 0,
        d > 0,
        b >= 0,
        p * u + b >= 0,
    ensures
        (p * u + b) / (u * d) == (p + b / u) / d,
{
    let q = b / u;
    let r = b % u;
    vstd::arithmetic::div_mod::lemma_fundamental_div_mod(b, u);
    vstd::arithmetic::div_mod::lemma_mod_bound(b, u);
    assert(p * u + b == (p + q) * u + r) by (nonlinear_arith)
        requires
            b == u * q + r,
    ;
    lemma_fundamental_div_mod_converse(p * u + b, u, p + q, r);
    vstd::arithmetic::div_mod::lemma_div_denominator(p * u + b, u, d);
}

/// Dividing `p * u - b` by `u * d` comes to dividing `p` less the quotient
/// of `b` by `u` rounded up, by `d`.
pub proof fn lemma_floor_minus(p: int, b: int, u: int, d: int)
    requires
        u > 0,
        d > 0,
        b >= 0,
        p * u - b >= 0,
    ensures
        (p * u - b) / (u * d) == (p - quotient_up(b, u)) / d,
{
    let q = b / u;
    let r = b % u;
    vstd::arithmetic::div_mod::lemma_fundamental_div_mod(b, u);
    vstd::arithmetic::div_mod::lemma_mod_bound(b, u);
    if r == 0 {
        assert(p * u - b == (p - q) * u + 0) by (nonlinear_arith)
            requires
                b == u * q + r,
                r == 0,
        ;
        lemma_fundamental_div_mod_converse(p * u - b, u, p - q, 0);
    } else {
        assert(p * u - b == (p - q - 1) * u + (u - r)) by (nonlinear_arith)
            requires
                b == u * q + r,
        ;
        lemma_fundamental_div_mod_converse(p * u - b, u, p - q - 1, u - r);
    }
    vstd::arithmetic::div_mod::lemma_div_denominator(p * u - b, u, d);
}

/// A common factor of a value and its divisor leaves the quotient as it is.
pub proof fn lemma_floor_scaled(x: int, c: int, d: int)
    requires
        x >= 0,
        c > 0,
        d > 0,
    ensures
        (c * x) / (c * d) == x / d,
{
    assert(c * x >= 0) by (nonlinear_arith)
        requires
            c > 0,
            x >= 0,
    ;
    vstd::arithmetic::div_mod::lemma_div_denominator(c * x, c, d);
    vstd::arithmetic::div_mod::lemma_div_multiples_vanish(x, c);
}

/// Capping a value at `cap * d` before dividing it by `d` comes to capping
/// the quotient at `cap`.
pub proof fn lemma_floor_capped(x: int, d: int, cap: int)
    requires
        d > 0,
    ensures
        (if x < cap * d { x } else { cap * d }) / d == (if x / d < cap { x / d } else { cap }),
{
    assert(cap * d == d * cap) by (nonlinear_arith);
    vstd::arithmetic::div_mod::lemma_div_multiples_vanish(cap, d);
    if x < cap * d {
        vstd::arithmetic::div_mod::lemma_fundamental_div_mod(x, d);
        vstd::arithmetic::div_mod::lemma_mod_bound(x, d);
        assert(x / d < cap) by (nonlinear_arith)
            requires
                x == d * (x / d) + x % d,
                0 <= x % d,
                x < cap * d,
                d > 0,
        ;
    } else {
        vstd::arithmetic::div_mod::lemma_div_is_ordered(cap * d, x, d);
    }
}

/// A natural number of any size.
pub struct Natural {
    limbs: Vec<u64>,
}

impl View for Natural {
    type V = int;

    closed spec fn view(&self) -> int {
        value(self.limbs@)
    }
}

impl Natural {
    #[verifier::type_invariant]
    spec fn is_valid(self) -> bool {
        is_reduced(self.limbs@)
    }

    /// The number one.
    pub fn one() -> (n: Natural)
        ensures
            n@ == 1,
    {
        let mut limbs: Vec<u64> = Vec::new();
        limbs.push(1);
        proof {
            assert(limbs@.drop_first() =~= Seq::<u64>::empty());
            assert(value(limbs@) == 1 + BASE * value(limbs@.drop_first()));
        }
        Natural { limbs }
    }

    /// The product of the number and a factor.
    pub fn times(&self, factor: u128) -> (n: Natural)
        requires
            factor <= FACTOR_MAX,
        ensures
            n@ == self@ * factor,
    {
        proof {
            use_type_invariant(self);
        }
        let mut out: Vec<u64> = Vec::new();
        let mut carry: u128 = 0;
        let mut i: usize = 0;
        proof {
            lemma_unit(0);
            assert(self.limbs@.take(0) =~= Seq::<u64>::empty());
            assert(factor * 0 == 0) by (nonlinear_arith);
        }
        while i < self.limbs.len()
            invariant
                i <= self.limbs@.len(),
                is_reduced(self.limbs@),
                is_reduced(out@),
                out@.len() == i,
                factor <= FACTOR_MAX,
                carry <= factor,
                value(out@) + carry * unit(i as nat) == factor * value(self.limbs@.take(i as int)),
            decreases self.limbs@.len() - i,
        {
            let limb = self.limbs[i];
            assert(limb < BASE);
            assert(limb as u128 * factor <= (BASE - 1) * factor) by (nonlinear_arith)
                requires
                    limb <= BASE - 1,
            ;
            assert((BASE - 1) * factor <= (BASE - 1) * FACTOR_MAX) by (nonlinear_arith)
                requires
                    factor <= FACTOR_MAX,
            ;
            let current = limb as u128 * factor + carry;
            let digit = (current % (BASE as u128)) as u64;
            let next = current / (BASE as u128);
            proof {
                let u = unit(i as nat);
                let low = self.limbs@.take(i as int);
                lemma_unit(i as nat);
                assert(self.limbs@.take(i + 1) =~= low.push(limb));
                lemma_value_push(low, limb);
                lemma_value_push(out@, digit);
                vstd::arithmetic::div_mod::lemma_fundamental_div_mod(current as int, BASE as int);
                assert(current == digit + BASE * next);
                assert(next <= factor);
                assert(factor * (value(low) + limb * u) == factor * value(low) + (limb * factor)
                    * u) by (nonlinear_arith);
                assert((digit + BASE * next) * u == digit * u + next * (BASE * u))
                    by (nonlinear_arith);
                assert((limb * factor + carry) * u == (limb * factor) * u + carry * u)
                    by (nonlinear_arith);
            }
            out.push(digit);
            carry = next;
            i += 1;
        }
        assert(self.limbs@.take(i as int) =~= self.limbs@);
        while carry > 0
            invariant
                is_reduced(out@),
                value(out@) + carry * unit(out@.len()) == factor * value(self.limbs@),
            decreases carry,
        {
            let digit = (carry % (BASE as u128)) as u64;
            let next = carry / (BASE as u128);
            proof {
                let u = unit(out@.len());
                lemma_unit(out@.len());
                lemma_value_push(out@, digit);
                vstd::arithmetic::div_mod::lemma_fundamental_div_mod(carry as int, BASE as int);
                assert(carry == digit + BASE * next);
                assert((digit + BASE * next) * u == digit * u + next * (BASE * u))
                    by (nonlinear_arith);
            }
            out.push(digit);
            carry = next;
        }
        proof {
            assert(0 * unit(out@.len()) == 0) by (nonlinear_arith);
            assert(factor * value(self.limbs@) == value(self.limbs@) * factor)
                by (nonlinear_arith);
        }
        Natural { limbs: out }
    }

    /// The quotient of the number by 10^(9k), and whether the division
    /// leaves no remainder.
    pub fn split(&self, k: usize) -> (r: (u128, bool))
        requires
            self@ < unit(k as nat) * QUOTIENT_MAX,
        ensures
            r.0 == self@ / unit(k as nat),
            r.1 == (self@ % unit(k as nat) == 0),
            r.0 < QUOTIENT_MAX,
    {
        proof {
            use_type_invariant(self);
        }
        let n = self.limbs.len();
        let cut = if k < n { k } else { n };
        let ghost low = self.limbs@.take(cut as int);
        let ghost high = self.limbs@.skip(cut as int);
        proof {
            lemma_value_split(self.limbs@, cut as nat);
            lemma_value_bound(low);
            lemma_value_zero(low);
            lemma_unit_increases(cut as nat, k as nat);
            assert forall|i: int| 0 <= i < high.len() implies #[trigger] high[i] < BASE by {
                assert(high[i] == self.limbs@[cut + i]);
            }
            lemma_value_bound(high);
        }
        let mut exact = true;
        let mut i: usize = 0;
        while i < cut
            invariant
                i <= cut <= self.limbs@.len(),
                low == self.limbs@.take(cut as int),
                exact == (forall|j: int| 0 <= j < i ==> #[trigger] low[j] == 0),
            decreases cut - i,
        {
            if self.limbs[i] != 0 {
                assert(low[i as int] != 0);
                exact = false;
            }
            i += 1;
        }
        assert(exact == (value(low) == 0));
        if n <= k {
            proof {
                assert(high =~= Seq::<u64>::empty());
                assert(unit(cut as nat) * 0 == 0) by (nonlinear_arith);
                lemma_fundamental_div_mod_converse(self@, unit(k as nat), 0, value(low));
            }
            return (0, exact);
        }
        proof {
            let u = unit(k as nat);
            assert(u * value(high) == value(high) * u) by (nonlinear_arith);
            lemma_fundamental_div_mod_converse(self@, u, value(high), value(low));
            assert(value(high) < QUOTIENT_MAX) by (nonlinear_arith)
                requires
                    value(high) * u <= self@,
                    self@ < u * QUOTIENT_MAX,
                    u > 0,
            ;
        }
        let mut quotient: u128 = 0;
        let mut j: usize = n;
        assert(self.limbs@.skip(n as int) =~= Seq::<u64>::empty());
        while j > k
            invariant
                k <= j <= n == self.limbs@.len(),
                is_reduced(self.limbs@),
                high == self.limbs@.skip(k as int),
                value(high) < QUOTIENT_MAX,
                quotient == value(self.limbs@.skip(j as int)),
            decreases j,
        {
            j -= 1;
            proof {
                let upper = self.limbs@.skip(j as int);
                assert(upper.drop_first() =~= self.limbs@.skip(j + 1));
                assert(upper[0] == self.limbs@[j as int]);
                lemma_value_split(high, (j - k) as nat);
                assert(high.skip(j - k) =~= upper);
                assert forall|i: int| 0 <= i < high.len() implies #[trigger] high[i] < BASE by {
                    assert(high[i] == self.limbs@[k + i]);
                }
                let below = high.take(j - k);
                assert forall|i: int| 0 <= i < below.len() implies #[trigger] below[i] < BASE by {
                    assert(below[i] == high[i]);
                }
                lemma_value_bound(below);
                lemma_unit_increases(0, (j - k) as nat);
                lemma_unit(0);
                assert forall|i: int| 0 <= i < upper.len() implies #[trigger] upper[i] < BASE by {
                    assert(upper[i] == self.limbs@[j + i]);
                }
                lemma_value_bound(upper);
                assert(value(upper) <= unit((j - k) as nat) * value(upper)) by (nonlinear_arith)
                    requires
                        unit((j - k) as nat) >= 1,
                        value(upper) >= 0,
                ;
                assert(value(upper) <= value(high));
                assert(value(upper) == upper[0] + BASE * quotient);
                assert(quotient * (BASE as u128) == BASE * quotient) by (nonlinear_arith);
            }
            quotient = quotient * (BASE as u128) + self.limbs[j] as u128;
        }
        (quotient, exact)
    }

    /// The power of a number: `base` taken `exponent` times as a factor.
    pub fn power(base: u128, exponent: u32) -> (n: Natural)
        requires
            base <= FACTOR_MAX,
        ensures
            n@ == pow(base as int, exponent as nat),
    {
        let mut n = Natural::one();
        let mut i: u32 = 0;
        proof {
            reveal(pow);
        }
        while i < exponent
            invariant
                i <= exponent,
                base <= FACTOR_MAX,
                n@ == pow(base as int, i as nat),
            decreases exponent - i,
        {
            n = n.times(base);
            proof {
                reveal(pow);
                assert(pow(base as int, (i + 1) as nat) == base * pow(base as int, i as nat));
                assert(pow(base as int, i as nat) * base == base * pow(base as int, i as nat))
                    by (nonlinear_arith);
            }
            i += 1;
        }
        n
    }
}

} // verus!
