//! The numbers that models compute with.

use vstd::prelude::*;

verus! {

/// A number type with the operations that the models, the gradient estimate
/// and the descent use.
///
/// Each executable operation is a function of its arguments: it returns what
/// the specification function beside it names, for every input. Nothing else
/// is asked of the arithmetic, so that rounding, saturating and exact number
/// types all fit.
///
/// The specification functions have bodies that say nothing of their value.
/// An implementation whose arithmetic the logic can describe overrides them
/// with its definitions; one whose arithmetic it cannot describe supplies the
/// executable operations alone.
pub trait Scalar: Copy {
    /// The number zero.
    open spec fn zero_value() -> Self {
        arbitrary()
    }

    /// The number one.
    open spec fn one_value() -> Self {
        arbitrary()
    }

    /// `self + rhs`.
    open spec fn plus(self, rhs: Self) -> Self {
        arbitrary()
    }

    /// `self - rhs`.
    open spec fn minus(self, rhs: Self) -> Self {
        arbitrary()
    }

    /// `self * rhs`.
    open spec fn times(self, rhs: Self) -> Self {
        arbitrary()
    }

    /// `self / rhs`.
    open spec fn over(self, rhs: Self) -> Self {
        arbitrary()
    }

    /// `self` raised to the power `exponent`.
    open spec fn raised(self, exponent: Self) -> Self {
        arbitrary()
    }

    /// `self` raised to the integer power `exponent`.
    open spec fn raised_to(self, exponent: i32) -> Self {
        arbitrary()
    }

    /// The square root of `self`.
    open spec fn root(self) -> Self {
        arbitrary()
    }

    /// The length of the hypotenuse of a right triangle with legs `self` and
    /// `other`.
    open spec fn hypotenuse(self, other: Self) -> Self {
        arbitrary()
    }

    /// The absolute value of `self`.
    open spec fn absolute(self) -> Self {
        arbitrary()
    }

    /// Whether `self <= rhs`.
    open spec fn at_most(self, rhs: Self) -> bool {
        arbitrary()
    }

    /// Whether `self` carries a positive sign.
    open spec fn has_positive_sign(self) -> bool {
        arbitrary()
    }

    /// The text that stands for `self` where a model is written out.
    open spec fn rendered(self) -> Seq<char> {
        arbitrary()
    }

    fn zero() -> (r: Self)
        ensures
            r == Self::zero_value(),
    ;

    fn one() -> (r: Self)
        ensures
            r == Self::one_value(),
    ;

    fn add(self, rhs: Self) -> (r: Self)
        ensures
            r == self.plus(rhs),
    ;

    fn sub(self, rhs: Self) -> (r: Self)
        ensures
            r == self.minus(rhs),
    ;

    fn mul(self, rhs: Self) -> (r: Self)
        ensures
            r == self.times(rhs),
    ;

    fn div(self, rhs: Self) -> (r: Self)
        ensures
            r == self.over(rhs),
    ;

    fn powf(self, exponent: Self) -> (r: Self)
        ensures
            r == self.raised(exponent),
    ;

    fn powi(self, exponent: i32) -> (r: Self)
        ensures
            r == self.raised_to(exponent),
    ;

    fn sqrt(self) -> (r: Self)
        ensures
            r == self.root(),
    ;

    fn hypot(self, other: Self) -> (r: Self)
        ensures
            r == self.hypotenuse(other),
    ;

    fn abs(self) -> (r: Self)
        ensures
            r == self.absolute(),
    ;

    fn le(self, rhs: Self) -> (r: bool)
        ensures
            r == self.at_most(rhs),
    ;

    fn is_sign_positive(self) -> (r: bool)
        ensures
            r == self.has_positive_sign(),
    ;

    fn render(self) -> (text: String)
        ensures
            text@ == self.rendered(),
    ;
}

} // verus!
