//! What is asked of a function that a model wraps, and how its values are
//! named.
//!
//! A wrapped function is never fitted itself. It has to be a function in the
//! mathematical sense: defined on every argument, with one value for each.

use vstd::prelude::*;

verus! {

/// Whether `function` may be called on every argument and returns the same
/// value whenever it is called on the same argument.
pub open spec fn is_function<S, F: Fn(S) -> S>(function: F) -> bool {
    &&& forall|x: S| call_requires(function, (x,))
    &&& forall|x: S, a: S, b: S|
        call_ensures(function, (x,), a) && call_ensures(function, (x,), b) ==> a == b
}

/// The value of `function` at `x`.
pub open spec fn image<S, F: Fn(S) -> S>(function: F, x: S) -> S {
    choose|y: S| call_ensures(function, (x,), y)
}

/// The array that holds the entries of `entries`.
pub open spec fn packed<S, const P: usize>(entries: Seq<S>) -> [S; P] {
    choose|array: [S; P]| array@ == entries
}

/// Whether `function` may be called on every argument and every array of
/// parameters, and returns the same value whenever it is called on the same
/// ones.
pub open spec fn is_parametric_function<S, F: Fn(S, [S; P]) -> S, const P: usize>(
    function: F,
) -> bool {
    &&& forall|x: S, parameters: [S; P]| call_requires(function, (x, parameters))
    &&& forall|x: S, parameters: [S; P], a: S, b: S|
        call_ensures(function, (x, parameters), a) && call_ensures(function, (x, parameters), b)
            ==> a == b
}

/// The value of `function` at `x` under the parameters `parameters`.
pub open spec fn parametric_image<S, F: Fn(S, [S; P]) -> S, const P: usize>(
    function: F,
    x: S,
    parameters: Seq<S>,
) -> S {
    choose|y: S| call_ensures(function, (x, packed::<S, P>(parameters)), y)
}

} // verus!
