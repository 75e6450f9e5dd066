//! A polynomial with a fixed number of terms.

use crate::model::{nudged, shifted, GradientDescent};
use crate::scalar::Scalar;
use crate::text::{decimal, write_decimal};
use vstd::prelude::*;
use vstd::string::StringExecFns;

verus! {

/// The polynomial whose coefficient of `x ^ i` is `terms[i]`. Its parameters
/// are the coefficients, from the constant term up.
#[derive(Clone, Debug)]
pub struct Polynomial<S, const TERMS: usize> {
    pub terms: [S; TERMS],
}

/// The exponent of term `index` as the power function takes it: the index,
/// cut to the 32 bits of an `i32`.
pub open spec fn exponent_of(index: int) -> i32 {
    index as i32
}

/// The value at `input` of the polynomial with these coefficients: the
/// terms `coefficients[i] * input ^ i`, added from the constant term up,
/// starting from zero.
pub open spec fn polynomial_value<S: Scalar>(coefficients: Seq<S>, input: S) -> S
    decreases coefficients.len(),
{
    if coefficients.len() == 0 {
        S::zero_value()
    } else {
        polynomial_value(coefficients.drop_last(), input).plus(
            coefficients.last().times(input.raised_to(exponent_of(coefficients.len() - 1))),
        )
    }
}

/// One term written out: its sign, the absolute value of its coefficient,
/// and its power of `x`. The leading term shows its sign as a bare minus or
/// not at all; every other term shows it as ` + ` or ` - `. The constant term
/// has no power, the next has `x`, and term `n` has `x^n`.
pub open spec fn term_text<S: Scalar>(coefficient: S, index: int, leading: bool) -> Seq<char> {
    let sign = if leading {
        if coefficient.has_positive_sign() {
            Seq::empty()
        } else {
            "-"@
        }
    } else {
        if coefficient.has_positive_sign() {
            " + "@
        } else {
            " - "@
        }
    };
    let power = if index == 0 {
        Seq::empty()
    } else if index == 1 {
        "x"@
    } else {
        "x^"@ + decimal(index as nat)
    };
    sign + coefficient.absolute().rendered() + power
}

/// The `shown` highest terms written out, from the highest power down.
pub open spec fn terms_text<S: Scalar>(coefficients: Seq<S>, shown: nat) -> Seq<char>
    decreases shown,
{
    if shown == 0 {
        Seq::empty()
    } else {
        let index = coefficients.len() - shown;
        terms_text(coefficients, (shown - 1) as nat) + term_text(
            coefficients[index],
            index,
            shown == 1,
        )
    }
}

impl<S: Scalar, const TERMS: usize> Polynomial<S, TERMS> {
    /// The polynomial written out from the highest power down, as in
    /// `3x^2 - 2x + 1`.
    pub open spec fn description(&self) -> Seq<char> {
        terms_text(self.terms@, TERMS as nat)
    }

    /// Writes the polynomial out.
    pub fn describe(&self) -> (text: String)
        ensures
            text@ == self.description(),
    {
        let mut text = String::new();
        let mut shown: usize = 0;
        while shown < TERMS
            invariant
                shown <= TERMS,
                text@ == terms_text(self.terms@, shown as nat),
            decreases TERMS - shown,
        {
            let index: usize = TERMS - 1 - shown;
            let constant = self.terms[index];
            let ghost before = text@;
            let positive = constant.is_sign_positive();
            if shown == 0 {
                if !positive {
                    text.append("-");
                }
            } else {
                if positive {
                    text.append(" + ");
                } else {
                    text.append(" - ");
                }
            }
            text.append(constant.abs().render().as_str());
            if index == 1 {
                text.append("x");
            } else if index > 1 {
                text.append("x^");
                text.append(write_decimal(index as u64).as_str());
            }
            assert(text@ =~= before + term_text(constant, index as int, shown == 0));
            shown += 1;
        }
        text
    }
}

impl<S: Scalar, const TERMS: usize> Default for Polynomial<S, TERMS> {
    /// The polynomial with every coefficient one.
    fn default() -> (r: Self)
        ensures
            r.terms@ == Seq::new(TERMS as nat, |i: int| S::one_value()),
    {
        let r = Polynomial { terms: [S::one();TERMS] };
        assert(r.terms@ =~= Seq::new(TERMS as nat, |i: int| S::one_value()));
        r
    }
}

impl<S: Scalar, const TERMS: usize> GradientDescent<S> for Polynomial<S, TERMS> {
    open spec fn well_formed(&self) -> bool {
        true
    }

    open spec fn parameter_vector(&self) -> Seq<S> {
        self.terms@
    }

    open spec fn evaluate(&self, parameters: Seq<S>, input: S) -> S {
        polynomial_value(parameters, input)
    }

    fn param_dimension(&self) -> (dimension: usize) {
        TERMS
    }

    fn predict(&self, nudge: Option<(usize, S)>, input: &[S; 1]) -> (output: [S; 1]) {
        let ghost coefficients = nudged(self.terms@, nudge);
        let mut sum = S::zero();
        let mut i: usize = 0;
        while i < TERMS
            invariant
                i <= TERMS,
                nudge matches Some((index, _)) ==> index < TERMS,
                coefficients == nudged(self.terms@, nudge),
                sum == polynomial_value(coefficients.take(i as int), input[0]),
            decreases TERMS - i,
        {
            assert(coefficients.take(i + 1).drop_last() == coefficients.take(i as int));
            let constant = match nudge {
                Some((index, epsilon)) => if i == index {
                    self.terms[i].add(epsilon)
                } else {
                    self.terms[i]
                },
                None => self.terms[i],
            };
            let exponent = #[verifier::truncate]
            (i as i32);
            sum = sum.add(constant.mul(input[0].powi(exponent)));
            i += 1;
        }
        assert(coefficients.take(TERMS as int) == coefficients);
        [sum]
    }

    fn descend(&mut self, adjustments: &[S]) {
        let mut i: usize = 0;
        while i < TERMS
            invariant
                i <= TERMS,
                adjustments@.len() == TERMS,
                forall|k: int|
                    0 <= k < i ==> self.terms@[k] == old(self).terms@[k].plus(adjustments@[k]),
                forall|k: int| i <= k < TERMS ==> self.terms@[k] == old(self).terms@[k],
            decreases TERMS - i,
        {
            self.terms[i] = self.terms[i].add(adjustments[i]);
            i += 1;
        }
        assert(self.terms@ =~= shifted(old(self).terms@, adjustments@));
    }
}

} // verus!
