use diff_lib::forward::{derivative, gradient, jacobian, DualScalar};

fn bits(x: f64) -> u64 {
    x.to_bits()
}

fn num(b: u64) -> f64 {
    f64::from_bits(b)
}

fn dual(v: f64, dv: f64) -> DualScalar {
    DualScalar { v: bits(v), dv: bits(dv) }
}

#[test]
fn derivative_test() {
    let f1_test = |x: DualScalar| x.mul(x);
    let f1_result = derivative(f1_test, bits(2.0));
    assert!(num(f1_result) == 4.0);
}

#[test]
fn gradient_test() {
    let f_test = |x: Vec<DualScalar>| x[0].add(x[1]);
    let f_result = gradient(f_test, &vec![bits(1.0), bits(2.0)]);
    assert!(num(f_result[0]) == 1.0);
    assert!(num(f_result[1]) == 1.0);
}

#[test]
fn jacobian_test() {
    let f_test = |x: Vec<DualScalar>| vec![x[0].mul(x[0]).mul(x[1]), x[0].add(x[1])];
    let f_result = jacobian(f_test, &vec![bits(1.0), bits(2.0)], 2);
    assert!(num(f_result.get(0, 0)) == 4.0);
    assert!(num(f_result.get(0, 1)) == 1.0);
    assert!(num(f_result.get(1, 0)) == 1.0);
    assert!(num(f_result.get(1, 1)) == 1.0);
    assert!(f_result.rows() == 2);
    assert!(f_result.cols() == 2);
}

#[test]
fn gradient_product_and_square() {
    // f(x, y) = x * y + y * y at (1, 2) has gradient (y, x + 2y) = (2, 5).
    let f_test = |x: Vec<DualScalar>| x[0].mul(x[1]).add(x[1].mul(x[1]));
    let f_result = gradient(f_test, &vec![bits(1.0), bits(2.0)]);
    assert!(num(f_result[0]) == 2.0);
    assert!(num(f_result[1]) == 5.0);
}

#[test]
fn gradient_quotient() {
    // f(x, y) = x / y at (1, 2) has gradient (1/y, -x/y^2) = (0.5, -0.25).
    let f_test = |x: Vec<DualScalar>| x[0].div(x[1]);
    let f_result = gradient(f_test, &vec![bits(1.0), bits(2.0)]);
    assert!(num(f_result[0]) == 0.5);
    assert!(num(f_result[1]) == -0.25);
}

#[test]
fn derivative_of_difference() {
    // f(x) = x - x * x at 2 has derivative 1 - 2x = -3.
    let f_test = |x: DualScalar| x.sub(x.mul(x));
    let f_result = derivative(f_test, bits(2.0));
    assert!(num(f_result) == -3.0);
}

#[test]
fn dual_arithmetic_matches_hardware() {
    // Inexact operands: every operation must round to nearest even,
    // bit for bit as the machine's own binary64 arithmetic does.
    let a = dual(0.1, 1.0);
    let b = dual(0.2, 0.3);
    let sum = a.add(b);
    assert!(num(sum.v) == 0.1 + 0.2);
    assert!(num(sum.dv) == 1.0 + 0.3);
    let diff = a.sub(b);
    assert!(num(diff.v) == 0.1 - 0.2);
    let prod = a.mul(b);
    assert!(num(prod.v) == 0.1 * 0.2);
    assert!(num(prod.dv) == 1.0 * 0.2 + 0.1 * 0.3);
    let quot = a.div(b);
    assert!(num(quot.v) == 0.1 / 0.2);
    assert!(num(quot.dv) == (1.0 * 0.2 - 0.1 * 0.3) / (0.2 * 0.2));
}

#[test]
fn division_by_zero_propagates() {
    // A zero denominator is not an error: the value becomes an infinity
    // and the derivative 0/0 becomes NaN, per IEEE-754.
    let a = dual(1.0, 1.0);
    let b = dual(0.0, 0.0);
    let quot = a.div(b);
    assert!(num(quot.v).is_infinite());
    assert!(num(quot.dv).is_nan());
}

#[test]
fn zero_and_is_zero() {
    let z = DualScalar::zero();
    assert!(num(z.v) == 0.0 && num(z.dv) == 0.0);
    assert!(z.is_zero());
    assert!(dual(-0.0, 5.0).is_zero());
    assert!(!dual(1.0, 0.0).is_zero());
    assert!(!dual(f64::NAN, 0.0).is_zero());
}

#[test]
fn assign_operators_match_plain_ones() {
    let a = dual(1.5, 2.0);
    let b = dual(-0.75, 4.0);
    let mut acc = a;
    acc.add_assign(b);
    let sum = a.add(b);
    assert!(acc.v == sum.v && acc.dv == sum.dv);
    let mut acc2 = a;
    acc2.mul_assign(b);
    let prod = a.mul(b);
    assert!(acc2.v == prod.v && acc2.dv == prod.dv);
    assert!(num(acc.deriv()) == 6.0);
}
