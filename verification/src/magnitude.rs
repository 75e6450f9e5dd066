//! The magnitude of a vector of scalars.

use crate::scalar::Scalar;
use vstd::prelude::*;

verus! {

/// The squares of the entries, added from the first to the last, starting
/// from zero.
pub open spec fn sum_of_squares<S: Scalar>(vector: Seq<S>) -> S
    decreases vector.len(),
{
    if vector.len() == 0 {
        S::zero_value()
    } else {
        sum_of_squares(vector.drop_last()).plus(vector.last().times(vector.last()))
    }
}

/// The magnitude of `vector`: zero for no entry, the entry itself with its
/// sign for one, the hypotenuse for two, and the root of the sum of squares
/// for three or more.
pub open spec fn magnitude_of<S: Scalar>(vector: Seq<S>) -> S {
    if vector.len() == 0 {
        S::zero_value()
    } else if vector.len() == 1 {
        vector[0]
    } else if vector.len() == 2 {
        vector[0].hypotenuse(vector[1])
    } else {
        sum_of_squares(vector).root()
    }
}

/// Computes the magnitude of `vector`.
pub fn magnitude<S: Scalar>(vector: &[S]) -> (r: S)
    ensures
        r == magnitude_of(vector@),
{
    let n = vector.len();
    if n == 0 {
        S::zero()
    } else if n == 1 {
        vector[0]
    } else if n == 2 {
        vector[0].hypot(vector[1])
    } else {
        let mut sum = S::zero();
        let mut i: usize = 0;
        while i < n
            invariant
                n == vector@.len(),
                i <= n,
                sum == sum_of_squares(vector@.take(i as int)),
            decreases n - i,
        {
            assert(vector@.take(i + 1).drop_last() == vector@.take(i as int));
            sum = sum.add(vector[i].mul(vector[i]));
            i += 1;
        }
        assert(vector@.take(n as int) == vector@);
        sum.sqrt()
    }
}

/// The magnitude of the shortest vectors, written out: nothing gives zero,
/// one entry gives itself, two give their hypotenuse, and three give the
/// root of their squares added from the left.
pub proof fn lemma_magnitude_of_short_vectors<S: Scalar>(a: S, b: S, c: S)
    ensures
        magnitude_of(Seq::<S>::empty()) == S::zero_value(),
        magnitude_of(seq![a]) == a,
        magnitude_of(seq![a, b]) == a.hypotenuse(b),
        magnitude_of(seq![a, b, c]) == S::zero_value().plus(a.times(a)).plus(b.times(b)).plus(
            c.times(c),
        ).root(),
{
    let abc = seq![a, b, c];
    let ab = seq![a, b];
    let one = seq![a];
    assert(abc.drop_last() == ab);
    assert(ab.drop_last() == one);
    assert(one.drop_last() == Seq::<S>::empty());
    reveal_with_fuel(sum_of_squares, 4);
}

} // verus!
