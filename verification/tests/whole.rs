use regressors::text::{write_decimal, write_list};
use regressors::{
    estimate_gradient, iterate, magnitude, total_squared_error, Configuration, Descent,
    Exponential, GradientDescent, Linear, Observation, ParametricEquation, Polynomial, Scalar,
    ScaledTranslatedEquation, Status,
};

fn add<S: Scalar>(a: S, b: S) -> S {
    a.add(b)
}

fn sub<S: Scalar>(a: S, b: S) -> S {
    a.sub(b)
}

fn mul<S: Scalar>(a: S, b: S) -> S {
    a.mul(b)
}

fn div<S: Scalar>(a: S, b: S) -> S {
    a.div(b)
}

fn powf<S: Scalar>(a: S, b: S) -> S {
    a.powf(b)
}

fn powi<S: Scalar>(a: S, b: i32) -> S {
    a.powi(b)
}

fn sqrt<S: Scalar>(a: S) -> S {
    a.sqrt()
}

fn hypot<S: Scalar>(a: S, b: S) -> S {
    a.hypot(b)
}

fn abs<S: Scalar>(a: S) -> S {
    a.abs()
}

fn le<S: Scalar>(a: S, b: S) -> bool {
    a.le(b)
}

fn is_sign_positive<S: Scalar>(a: S) -> bool {
    a.is_sign_positive()
}

fn render<S: Scalar>(a: S) -> String {
    a.render()
}

fn observations(points: &[(i64, i64)]) -> Vec<Observation<i64>> {
    points.iter().map(|&(x, y)| Observation { x, y }).collect()
}

const MAX: i64 = i64::MAX;
const MIN: i64 = i64::MIN;

// The arithmetic of whole numbers.

#[test]
fn whole_zero_and_one() {
    assert_eq!(<i64 as Scalar>::zero(), 0);
    assert_eq!(<i64 as Scalar>::one(), 1);
}

#[test]
fn whole_sums_saturate() {
    assert_eq!(add(2i64, 3), 5);
    assert_eq!(add(-2i64, -3), -5);
    assert_eq!(add(MAX, 1), MAX);
    assert_eq!(add(MAX, MAX), MAX);
    assert_eq!(add(MIN, -1), MIN);
    assert_eq!(add(MIN, MAX), -1);
}

#[test]
fn whole_differences_saturate() {
    assert_eq!(sub(2i64, 3), -1);
    assert_eq!(sub(MIN, 1), MIN);
    assert_eq!(sub(MAX, -1), MAX);
    assert_eq!(sub(0, MIN), MAX);
    assert_eq!(sub(-1, MIN), MAX);
    assert_eq!(sub(-2, MAX), MIN);
}

#[test]
fn whole_products_saturate() {
    assert_eq!(mul(6i64, 7), 42);
    assert_eq!(mul(-6i64, 7), -42);
    assert_eq!(mul(MAX, 2), MAX);
    assert_eq!(mul(MAX, -2), MIN);
    assert_eq!(mul(MIN, 2), MIN);
    assert_eq!(mul(MIN, MIN), MAX);
    assert_eq!(mul(MIN, -1), MAX);
    assert_eq!(mul(MIN, 0), 0);
}

#[test]
fn whole_quotients_round_towards_zero() {
    assert_eq!(div(7i64, 2), 3);
    assert_eq!(div(-7i64, 2), -3);
    assert_eq!(div(7i64, -2), -3);
    assert_eq!(div(-7i64, -2), 3);
    assert_eq!(div(1i64, 2), 0);
    assert_eq!(div(MIN, -1), MAX);
    assert_eq!(div(MIN, 1), MIN);
}

#[test]
fn whole_division_by_zero_saturates() {
    assert_eq!(div(5i64, 0), MAX);
    assert_eq!(div(-5i64, 0), MIN);
    assert_eq!(div(0i64, 0), 0);
}

#[test]
fn whole_powers_saturate() {
    assert_eq!(powi(2i64, 10), 1024);
    assert_eq!(powi(-2i64, 3), -8);
    assert_eq!(powi(5i64, 0), 1);
    assert_eq!(powi(0i64, 0), 1);
    assert_eq!(powi(0i64, 5), 0);
    assert_eq!(powi(7i64, 1), 7);
    assert_eq!(powi(2i64, 62), 4611686018427387904);
    assert_eq!(powi(2i64, 63), MAX);
    assert_eq!(powi(-2i64, 63), MIN);
    assert_eq!(powi(-2i64, 64), MAX);
    assert_eq!(powi(-2i64, 65), MIN);
    assert_eq!(powi(3i64, 39), 4052555153018976267);
    assert_eq!(powi(3i64, 40), MAX);
    assert_eq!(powi(-3i64, 41), MIN);
    assert_eq!(powi(10i64, i32::MAX), MAX);
    assert_eq!(powi(-10i64, i32::MAX), MIN);
    assert_eq!(powi(-1i64, i32::MAX), -1);
    assert_eq!(powi(-1i64, 1_000_000), 1);
    assert_eq!(powi(1i64, i32::MAX), 1);
}

#[test]
fn whole_powers_with_a_negative_exponent_are_one_over_the_power() {
    assert_eq!(powi(2i64, -1), 0);
    assert_eq!(powi(1i64, -5), 1);
    assert_eq!(powi(-1i64, -3), -1);
    assert_eq!(powi(-1i64, -4), 1);
    assert_eq!(powi(0i64, -1), MAX);
    assert_eq!(powi(2i64, i32::MIN), 0);
    assert_eq!(powi(-1i64, i32::MIN), 1);
}

#[test]
fn whole_powers_take_a_whole_exponent_of_any_size() {
    assert_eq!(powf(2i64, 10), 1024);
    assert_eq!(powf(-2i64, 3), -8);
    assert_eq!(powf(2i64, 1 << 40), MAX);
    assert_eq!(powf(-2i64, 1 << 40), MAX);
    assert_eq!(powf(-2i64, (1 << 40) + 1), MIN);
    assert_eq!(powf(-1i64, MAX), -1);
    assert_eq!(powf(2i64, MIN), 0);
    assert_eq!(powf(1i64, MIN), 1);
    assert_eq!(powf(-1i64, MIN), 1);
    assert_eq!(powf(0i64, MIN), MAX);
    assert_eq!(powf(3i64, -2), 0);
}

#[test]
fn whole_roots_round_down() {
    assert_eq!(sqrt(0i64), 0);
    assert_eq!(sqrt(1i64), 1);
    assert_eq!(sqrt(3i64), 1);
    assert_eq!(sqrt(4i64), 2);
    assert_eq!(sqrt(10i64), 3);
    assert_eq!(sqrt(16i64), 4);
    assert_eq!(sqrt(9223372030926249001i64), 3037000499);
    assert_eq!(sqrt(9223372030926249000i64), 3037000498);
    assert_eq!(sqrt(MAX), 3037000499);
    assert_eq!(sqrt(-4i64), 0);
    assert_eq!(sqrt(MIN), 0);
}

#[test]
fn whole_hypotenuses_round_down_and_saturate() {
    assert_eq!(hypot(3i64, 4), 5);
    assert_eq!(hypot(-3i64, 4), 5);
    assert_eq!(hypot(-3i64, -4), 5);
    assert_eq!(hypot(1i64, 1), 1);
    assert_eq!(hypot(0i64, 0), 0);
    assert_eq!(hypot(0i64, -9), 9);
    assert_eq!(hypot(MAX, 0), MAX);
    assert_eq!(hypot(MIN, 0), MAX);
    assert_eq!(hypot(MIN, MIN), MAX);
    assert_eq!(hypot(MAX, MAX), MAX);
    assert_eq!(hypot(3_000_000_000i64, 4_000_000_000), 5_000_000_000);
}

#[test]
fn whole_absolute_values_saturate() {
    assert_eq!(abs(-5i64), 5);
    assert_eq!(abs(5i64), 5);
    assert_eq!(abs(0i64), 0);
    assert_eq!(abs(MIN), MAX);
    assert_eq!(abs(MIN + 1), MAX);
}

#[test]
fn whole_order_and_sign() {
    assert!(le(2i64, 3));
    assert!(le(3i64, 3));
    assert!(!le(4i64, 3));
    assert!(is_sign_positive(0i64));
    assert!(is_sign_positive(7i64));
    assert!(!is_sign_positive(-1i64));
}

#[test]
fn whole_numbers_are_written_in_decimal() {
    assert_eq!(render(0i64), "0");
    assert_eq!(render(7i64), "7");
    assert_eq!(render(10i64), "10");
    assert_eq!(render(42i64), "42");
    assert_eq!(render(-42i64), "-42");
    assert_eq!(render(1_000_000i64), "1000000");
    assert_eq!(render(MAX), "9223372036854775807");
    assert_eq!(render(MIN), "-9223372036854775808");
}

#[test]
fn decimal_digits_come_most_significant_first() {
    assert_eq!(write_decimal(0), "0");
    assert_eq!(write_decimal(9), "9");
    assert_eq!(write_decimal(10), "10");
    assert_eq!(write_decimal(1234567890), "1234567890");
    assert_eq!(write_decimal(u64::MAX), "18446744073709551615");
}

#[test]
fn lists_put_a_comma_between_neighbours() {
    assert_eq!(write_list::<i64>(&[]), "");
    assert_eq!(write_list(&[5i64]), "5");
    assert_eq!(write_list(&[1i64, -2, 3]), "1, -2, 3");
}

// Models over whole numbers.

#[test]
fn whole_models_predict_their_closed_forms() {
    let line: Linear<i64> = Linear { slope: 2, y_intercept: 1 };
    assert_eq!(line.predict(None, &[3]), [7]);
    assert_eq!(line.predict(Some((0, 5)), &[3]), [22]);
    assert_eq!(line.predict(Some((1, 5)), &[3]), [12]);

    let curve: Exponential<i64> = Exponential { base: 3, growth: 2 };
    assert_eq!(curve.predict(None, &[4]), [48]);
    assert_eq!(curve.predict(Some((0, 1)), &[4]), [64]);
    assert_eq!(curve.predict(Some((1, 1)), &[4]), [243]);

    let polynomial: Polynomial<i64, 3> = Polynomial { terms: [1, 2, 3] };
    assert_eq!(polynomial.predict(None, &[2]), [17]);
    assert_eq!(polynomial.predict(Some((2, -3)), &[2]), [5]);

    let moved = ScaledTranslatedEquation {
        x_0: 1i64,
        y_0: 10,
        width: 2,
        height: 3,
        function: |x: i64| x * x,
    };
    assert_eq!(moved.predict(None, &[5]), [22]);
    assert_eq!(moved.predict(Some((0, 2)), &[5]), [13]);
    assert_eq!(moved.predict(Some((2, 2)), &[5]), [13]);

    let bare = ParametricEquation { parameters: [5i64, 2], function: |x: i64, p: [i64; 2]| {
        p[0] * x + p[1]
    } };
    assert_eq!(bare.predict(None, &[3]), [17]);
    assert_eq!(bare.predict(Some((1, 4)), &[3]), [21]);
}

#[test]
fn whole_models_descend() {
    let mut line: Linear<i64> = Linear { slope: 2, y_intercept: 1 };
    line.descend(&[1, -1]);
    assert_eq!((line.slope, line.y_intercept), (3, 0));
    assert_eq!(line.predict(None, &[3]), [9]);

    let mut saturated: Linear<i64> = Linear { slope: MAX, y_intercept: MIN };
    saturated.descend(&[1, -1]);
    assert_eq!((saturated.slope, saturated.y_intercept), (MAX, MIN));
}

#[test]
fn whole_models_are_written_out() {
    let line: Linear<i64> = Linear { slope: 2, y_intercept: -1 };
    assert_eq!(line.describe(), "2 * x + -1");
    let polynomial: Polynomial<i64, 3> = Polynomial { terms: [1, -2, 3] };
    assert_eq!(polynomial.describe(), "3x^2 - 2x + 1");
    let negative: Polynomial<i64, 2> = Polynomial { terms: [0, -4] };
    assert_eq!(negative.describe(), "-4x + 0");
}

#[test]
fn whole_magnitudes() {
    assert_eq!(magnitude::<i64>(&[]), 0);
    assert_eq!(magnitude(&[-7i64]), -7);
    assert_eq!(magnitude(&[3i64, 4]), 5);
    assert_eq!(magnitude(&[1i64, 2, 2]), 3);
    assert_eq!(magnitude(&[2i64, 3, 6]), 7);
    assert_eq!(magnitude(&[1i64, 1, 1]), 1);
}

// The gradient over whole numbers.

#[test]
fn whole_gradient_is_positive_where_the_error_falls_by_epsilon_or_more() {
    let data = observations(&[(1, 2), (2, 4), (3, 6)]);
    let model: Linear<i64> = Linear { slope: 1, y_intercept: 0 };
    assert_eq!(total_squared_error(&model, None, &data), 14);
    assert_eq!(total_squared_error(&model, Some((0, 1)), &data), 0);
    assert_eq!(total_squared_error(&model, Some((1, 1)), &data), 5);
    let (gradient, base_error) = estimate_gradient(&model, &data, 1);
    assert_eq!(base_error, 14);
    assert_eq!(gradient, vec![14, 9]);
}

#[test]
fn whole_gradient_loses_a_fall_smaller_than_epsilon() {
    // 10 / 3 is 3 and 10 / 5 is 2: a wider curve fits the observation, but
    // the fall of the error, 1, is less than the nudge, 2
    let data = observations(&[(10, 2)]);
    let model = ScaledTranslatedEquation {
        x_0: 0i64,
        y_0: 0,
        width: 3,
        height: 1,
        function: |x: i64| x,
    };
    assert_eq!(total_squared_error(&model, None, &data), 1);
    assert_eq!(total_squared_error(&model, Some((2, 2)), &data), 0);
    let (gradient, _) = estimate_gradient(&model, &data, 2);
    assert_eq!(gradient[2], 0);
}

#[test]
fn whole_descent_finds_the_line() {
    let data = observations(&[(1, 2), (2, 4), (3, 6)]);
    let settings =
        Configuration { temperature: 1i64, epsilon: 1, finish_threshold: 20, print_interval: 1 };
    let mut model: Linear<i64> = Linear { slope: -5, y_intercept: 0 };
    let found = iterate(&mut model, &data, &settings);
    // the error is 49 + 196 + 441; with the slope at -4 it is 36 + 144 + 324,
    // with the intercept at 1 it is 36 + 169 + 400: the gradient is (182, 81),
    // and the root of 39685 is 199 and a bit
    assert_eq!(found.base_error, 686);
    assert_eq!(found.magnitude, 199);
    assert!(!found.converged);
    assert_eq!((model.slope, model.y_intercept), (177, 81));

    let mut fitted: Linear<i64> = Linear { slope: 2, y_intercept: 0 };
    let mut run = Descent::new();
    let told = run.advance(&mut fitted, &data, &settings, false).unwrap();
    // nudges of one raise the error from 0 to 14 and to 3
    assert_eq!(told.base_error, 0);
    assert_eq!(told.magnitude, 14);
    assert_eq!(run.status, Status::Converged);
    assert_eq!((fitted.slope, fitted.y_intercept), (2, 0));
}
