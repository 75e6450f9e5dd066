//! Whole numbers as scalars.
//!
//! `i64` computes exactly as long as a result fits, and saturates where it
//! does not: a result above the largest value becomes the largest value, one
//! below the smallest becomes the smallest. A quotient is rounded towards
//! zero, a root down. A division by zero saturates in the direction of the
//! dividend's sign.

use crate::gradient::{partial, squared_error};
use crate::model::{nudged_at, GradientDescent, Observation};
use crate::scalar::Scalar;
use crate::text::{decimal, write_decimal};
use vstd::arithmetic::power::pow;
use vstd::arithmetic::power2::{lemma2_to64, lemma_pow2_strictly_increases, lemma_pow2_unfold, pow2};
use vstd::prelude::*;
use vstd::string::StringExecFns;

verus! {

/// The `i64` nearest to `value`.
pub open spec fn clamped(value: int) -> i64 {
    if value > i64::MAX {
        i64::MAX
    } else if value < i64::MIN {
        i64::MIN
    } else {
        value as i64
    }
}

/// The quotient of `dividend` by a `divisor` other than zero, rounded
/// towards zero.
pub open spec fn truncated_quotient(dividend: int, divisor: int) -> int {
    if dividend >= 0 && divisor > 0 {
        dividend / divisor
    } else if dividend < 0 && divisor < 0 {
        (-dividend) / (-divisor)
    } else if dividend < 0 {
        -((-dividend) / divisor)
    } else {
        -(dividend / (-divisor))
    }
}

/// Whether `root` is the square root of `value` rounded down.
pub open spec fn is_floor_root(value: int, root: int) -> bool {
    0 <= root && root * root <= value < (root + 1) * (root + 1)
}

/// The square root of `value` rounded down; zero for a negative `value`.
pub open spec fn floor_root(value: int) -> int {
    if value < 0 {
        0
    } else {
        choose|root: int| is_floor_root(value, root)
    }
}

/// `base` to the power `exponent`, saturated; for a negative exponent, one
/// over the power with the exponent's sign dropped.
pub open spec fn saturated_power(base: i64, exponent: int) -> i64 {
    if exponent >= 0 {
        clamped(pow(base as int, exponent as nat))
    } else {
        1i64.over(clamped(pow(base as int, (-exponent) as nat)))
    }
}

/// A number that is the rounded-down root of a value is the one that
/// `floor_root` names: there is no other.
pub proof fn lemma_floor_root_is(value: int, root: int)
    requires
        is_floor_root(value, root),
    ensures
        floor_root(value) == root,
{
    let other = floor_root(value);
    assert(0 <= value) by (nonlinear_arith)
        requires
            root * root <= value,
    ;
    assert(is_floor_root(value, other));
    if root < other {
        assert((root + 1) * (root + 1) <= other * other) by (nonlinear_arith)
            requires
                0 <= root,
                root + 1 <= other,
        ;
    }
    if other < root {
        assert((other + 1) * (other + 1) <= root * root) by (nonlinear_arith)
            requires
                0 <= other,
                other + 1 <= root,
        ;
    }
}

/// A power of a base of absolute value two or more is at least as far from
/// zero as the same power of two, on the side that the signs give.
proof fn lemma_power_outgrows_two(base: int, exponent: nat)
    requires
        base >= 2 || base <= -2,
    ensures
        base > 0 || exponent % 2 == 0 ==> pow(base, exponent) >= pow2(exponent),
        base < 0 && exponent % 2 == 1 ==> pow(base, exponent) <= -pow2(exponent),
        pow2(exponent) >= 1,
    decreases exponent,
{
    reveal(pow);
    if exponent == 0 {
        lemma2_to64();
    } else {
        let rest = (exponent - 1) as nat;
        lemma_power_outgrows_two(base, rest);
        lemma_pow2_unfold(exponent);
        let p = pow(base, rest);
        let q = pow2(rest) as int;
        assert(pow(base, exponent) == base * p);
        if base > 0 {
            assert(base * p >= 2 * q) by (nonlinear_arith)
                requires
                    base >= 2,
                    p >= q,
                    q >= 1,
            ;
        } else if rest % 2 == 0 {
            assert(base * p <= -(2 * q)) by (nonlinear_arith)
                requires
                    base <= -2,
                    p >= q,
                    q >= 1,
            ;
        } else {
            assert(base * p >= 2 * q) by (nonlinear_arith)
                requires
                    base <= -2,
                    p <= -q,
                    q >= 1,
            ;
        }
    }
}

/// To saturate a product, it does not matter whether one factor was
/// saturated before.
proof fn lemma_clamped_product(value: int, factor: int)
    requires
        factor >= 2 || factor <= -2,
    ensures
        clamped(clamped(value) * factor) == clamped(value * factor),
{
    let max = i64::MAX as int;
    let min = i64::MIN as int;
    if value > max {
        if factor > 0 {
            assert(max * factor > max && value * factor > max) by (nonlinear_arith)
                requires
                    factor >= 2,
                    value > max,
                    max > 0,
            ;
        } else {
            assert(max * factor < min && value * factor < min) by (nonlinear_arith)
                requires
                    factor <= -2,
                    value > max,
                    max > 1,
                    min == -max - 1,
            ;
        }
    } else if value < min {
        if factor > 0 {
            assert(min * factor < min && value * factor < min) by (nonlinear_arith)
                requires
                    factor >= 2,
                    value < min,
                    min < 0,
            ;
        } else {
            assert(min * factor > max && value * factor > max) by (nonlinear_arith)
                requires
                    factor <= -2,
                    value < min,
                    min < 0,
                    max == -min - 1,
            ;
        }
    }
}

/// Computes the rounded-down square root by bisection.
fn bisect_root(value: u128) -> (root: u128)
    ensures
        root == floor_root(value as int),
        is_floor_root(value as int, root as int),
        root <= u64::MAX,
{
    let mut low: u128 = 0;
    let mut high: u128 = 0x1_0000_0000_0000_0000;
    assert(high * high > value) by (nonlinear_arith)
        requires
            high == 0x1_0000_0000_0000_0000,
            value <= u128::MAX,
    ;
    while high - low > 1
        invariant
            low < high <= 0x1_0000_0000_0000_0000,
            low * low <= value < high * high,
        decreases high - low,
    {
        let middle: u128 = low + (high - low) / 2;
        assert(middle * middle <= u128::MAX) by (nonlinear_arith)
            requires
                middle < 0x1_0000_0000_0000_0000,
        ;
        if middle * middle <= value {
            low = middle;
        } else {
            high = middle;
        }
    }
    proof {
        lemma_floor_root_is(value as int, low as int);
    }
    low
}

/// Computes a power with an exponent that is not negative.
fn power_of(base: i64, exponent: u64) -> (r: i64)
    ensures
        r == clamped(pow(base as int, exponent as nat)),
{
    broadcast use {
        vstd::arithmetic::power::lemma_pow0,
        vstd::arithmetic::power::lemma0_pow,
        vstd::arithmetic::power::lemma1_pow,
    };

    if exponent == 0 {
        1
    } else if base == 0 {
        0
    } else if base == 1 {
        1
    } else if base == -1 {
        proof {
            lemma_minus_one_power(exponent as nat);
        }
        if exponent % 2 == 0 {
            1
        } else {
            -1
        }
    } else if exponent >= 64 {
        proof {
            lemma_power_outgrows_two(base as int, exponent as nat);
            lemma2_to64();
            if exponent > 64 {
                lemma_pow2_strictly_increases(64, exponent as nat);
            }
        }
        if base > 0 || exponent % 2 == 0 {
            i64::MAX
        } else {
            i64::MIN
        }
    } else {
        let mut r: i64 = 1;
        let mut done: u64 = 0;
        while done < exponent
            invariant
                done <= exponent,
                base >= 2 || base <= -2,
                r == clamped(pow(base as int, done as nat)),
            decreases exponent - done,
        {
            proof {
                reveal(pow);
                lemma_clamped_product(pow(base as int, done as nat), base as int);
                assert(pow(base as int, (done + 1) as nat) == base * pow(base as int, done as nat));
                assert(base * pow(base as int, done as nat) == pow(base as int, done as nat) * base)
                    by (nonlinear_arith);
            }
            r = r.mul(base);
            done += 1;
        }
        r
    }
}

/// The powers of minus one alternate between one and minus one.
proof fn lemma_minus_one_power(exponent: nat)
    ensures
        pow(-1, exponent) == (if exponent % 2 == 0 {
            1int
        } else {
            -1int
        }),
    decreases exponent,
{
    reveal(pow);
    if exponent > 0 {
        lemma_minus_one_power((exponent - 1) as nat);
    }
}

/// Computes a power with any exponent.
fn signed_power_of(base: i64, exponent: i64) -> (r: i64)
    ensures
        r == saturated_power(base, exponent as int),
{
    if exponent >= 0 {
        power_of(base, exponent as u64)
    } else {
        let positive: u64 = if exponent == i64::MIN {
            0x8000_0000_0000_0000
        } else {
            (-exponent) as u64
        };
        1i64.div(power_of(base, positive))
    }
}

impl Scalar for i64 {
    open spec fn zero_value() -> Self {
        0
    }

    open spec fn one_value() -> Self {
        1
    }

    open spec fn plus(self, rhs: Self) -> Self {
        clamped(self + rhs)
    }

    open spec fn minus(self, rhs: Self) -> Self {
        clamped(self - rhs)
    }

    open spec fn times(self, rhs: Self) -> Self {
        clamped(self * rhs)
    }

    open spec fn over(self, rhs: Self) -> Self {
        if rhs != 0 {
            clamped(truncated_quotient(self as int, rhs as int))
        } else if self > 0 {
            i64::MAX
        } else if self < 0 {
            i64::MIN
        } else {
            0
        }
    }

    open spec fn raised(self, exponent: Self) -> Self {
        saturated_power(self, exponent as int)
    }

    open spec fn raised_to(self, exponent: i32) -> Self {
        saturated_power(self, exponent as int)
    }

    open spec fn root(self) -> Self {
        clamped(floor_root(self as int))
    }

    open spec fn hypotenuse(self, other: Self) -> Self {
        clamped(floor_root(self * self + other * other))
    }

    open spec fn absolute(self) -> Self {
        clamped(if self < 0 {
            -self
        } else {
            self as int
        })
    }

    open spec fn at_most(self, rhs: Self) -> bool {
        self <= rhs
    }

    open spec fn has_positive_sign(self) -> bool {
        self >= 0
    }

    /// The decimal digits, after a minus sign where `self` is negative.
    open spec fn rendered(self) -> Seq<char> {
        if self < 0 {
            seq!['-'] + decimal((-self) as nat)
        } else {
            decimal(self as nat)
        }
    }

    fn zero() -> (r: Self) {
        0
    }

    fn one() -> (r: Self) {
        1
    }

    fn add(self, rhs: Self) -> (r: Self) {
        match self.checked_add(rhs) {
            Some(sum) => sum,
            None => if self < 0 {
                i64::MIN
            } else {
                i64::MAX
            },
        }
    }

    fn sub(self, rhs: Self) -> (r: Self) {
        match self.checked_sub(rhs) {
            Some(difference) => difference,
            None => if self < 0 {
                i64::MIN
            } else {
                i64::MAX
            },
        }
    }

    fn mul(self, rhs: Self) -> (r: Self) {
        match self.checked_mul(rhs) {
            Some(product) => product,
            None => {
                assert((self * rhs > i64::MAX) <==> (self < 0) == (rhs < 0)) by (nonlinear_arith)
                    requires
                        self * rhs > i64::MAX || self * rhs < i64::MIN,
                ;
                if (self < 0) == (rhs < 0) {
                    i64::MAX
                } else {
                    i64::MIN
                }
            },
        }
    }

    fn div(self, rhs: Self) -> (r: Self) {
        if rhs == 0 {
            if self > 0 {
                i64::MAX
            } else if self < 0 {
                i64::MIN
            } else {
                0
            }
        } else {
            match self.checked_div(rhs) {
                Some(quotient) => quotient,
                None => i64::MAX,
            }
        }
    }

    fn powf(self, exponent: Self) -> (r: Self) {
        signed_power_of(self, exponent)
    }

    fn powi(self, exponent: i32) -> (r: Self) {
        signed_power_of(self, exponent as i64)
    }

    fn sqrt(self) -> (r: Self) {
        if self < 0 {
            0
        } else {
            let root = bisect_root(self as u128);
            proof {
                assert(root <= i64::MAX) by (nonlinear_arith)
                    requires
                        root * root <= self,
                        self <= i64::MAX,
                        root >= 0,
                ;
            }
            root as i64
        }
    }

    fn hypot(self, other: Self) -> (r: Self) {
        let a: u128 = if self < 0 {
            (-(self as i128)) as u128
        } else {
            self as u128
        };
        let b: u128 = if other < 0 {
            (-(other as i128)) as u128
        } else {
            other as u128
        };
        assert(a * a == self * self && a * a <= 0x4000_0000_0000_0000_0000_0000_0000_0000)
            by (nonlinear_arith)
            requires
                a == self || a == -self,
                a <= 0x8000_0000_0000_0000,
        ;
        assert(b * b == other * other && b * b <= 0x4000_0000_0000_0000_0000_0000_0000_0000)
            by (nonlinear_arith)
            requires
                b == other || b == -other,
                b <= 0x8000_0000_0000_0000,
        ;
        let root = bisect_root(a * a + b * b);
        if root > 0x7fff_ffff_ffff_ffff {
            i64::MAX
        } else {
            root as i64
        }
    }

    fn abs(self) -> (r: Self) {
        if self == i64::MIN {
            i64::MAX
        } else if self < 0 {
            -self
        } else {
            self
        }
    }

    fn le(self, rhs: Self) -> (r: bool) {
        self <= rhs
    }

    fn is_sign_positive(self) -> (r: bool) {
        self >= 0
    }

    fn render(self) -> (text: String) {
        if self < 0 {
            let size: u64 = if self == i64::MIN {
                0x8000_0000_0000_0000
            } else {
                (-self) as u64
            };
            let digits = write_decimal(size);
            let mut text = String::from_str("-");
            text.append(digits.as_str());
            proof {
                reveal_strlit("-");
                assert("-"@ =~= seq!['-']);
            }
            text
        } else {
            write_decimal(self as u64)
        }
    }
}

/// In whole numbers, the entry of the gradient for a parameter is positive
/// where a nudge of that parameter by a positive `epsilon` lowers the error
/// by `epsilon` or more.
///
/// A smaller fall is lost when the quotient is rounded: see
/// [`lemma_small_fall_is_rounded_away`].
pub proof fn lemma_falling_error_gives_positive_partial<M: GradientDescent<i64>>(
    model: &M,
    parameters: Seq<i64>,
    data: Seq<Observation<i64>>,
    epsilon: i64,
    index: int,
)
    requires
        0 < epsilon,
        squared_error(model, nudged_at(parameters, index, epsilon), data) < squared_error(
            model,
            parameters,
            data,
        ),
        squared_error(model, parameters, data) - squared_error(
            model,
            nudged_at(parameters, index, epsilon),
            data,
        ) >= epsilon,
    ensures
        partial(model, parameters, data, epsilon, index) > 0,
{
    let base = squared_error(model, parameters, data);
    let nudged = squared_error(model, nudged_at(parameters, index, epsilon), data);
    let fall = base.minus(nudged);
    assert(fall >= epsilon);
    assert(fall as int / epsilon as int >= 1) by (nonlinear_arith)
        requires
            fall >= epsilon,
            epsilon > 0,
    ;
}

/// In whole numbers, the entry of the gradient for a parameter is zero where
/// a nudge of that parameter by a positive `epsilon` lowers the error by
/// less than `epsilon`.
pub proof fn lemma_small_fall_is_rounded_away<M: GradientDescent<i64>>(
    model: &M,
    parameters: Seq<i64>,
    data: Seq<Observation<i64>>,
    epsilon: i64,
    index: int,
)
    requires
        0 < epsilon,
        squared_error(model, nudged_at(parameters, index, epsilon), data) <= squared_error(
            model,
            parameters,
            data,
        ),
        squared_error(model, parameters, data) - squared_error(
            model,
            nudged_at(parameters, index, epsilon),
            data,
        ) < epsilon,
    ensures
        partial(model, parameters, data, epsilon, index) == 0,
{
    let base = squared_error(model, parameters, data);
    let nudged = squared_error(model, nudged_at(parameters, index, epsilon), data);
    let fall = base.minus(nudged);
    assert(0 <= fall < epsilon);
    assert(fall as int / epsilon as int == 0) by (nonlinear_arith)
        requires
            0 <= fall < epsilon,
    ;
}

} // verus!
