use diff_lib::forward::{gradient, DualScalar};
use diff_lib::reverse::Tape;

fn bits(x: f64) -> u64 {
    x.to_bits()
}

fn num(b: u64) -> f64 {
    f64::from_bits(b)
}

fn close(a: f64, b: f64) -> bool {
    (a - b).abs() <= 1e-12 * a.abs().max(b.abs()).max(1.0)
}

#[test]
fn cross_mode_consistency() {
    // The same expression, f(x, y) = x*y + y/x - x, built in both modes at
    // (3, 2): each reverse-mode adjoint agrees with the forward-mode
    // gradient component within floating-point tolerance.
    let x0 = 3.0;
    let y0 = 2.0;

    let f_test = |v: Vec<DualScalar>| v[0].mul(v[1]).add(v[1].div(v[0])).sub(v[0]);
    let fwd = gradient(f_test, &vec![bits(x0), bits(y0)]);

    let mut tape = Tape::new();
    let x = tape.var(bits(x0));
    let y = tape.var(bits(y0));
    let xy = tape.mul(x, y);
    let y_over_x = tape.div(y, x);
    let s = tape.add(xy, y_over_x);
    let z = tape.sub(s, x);
    let grad = z.backprop(&tape);

    assert!(close(num(fwd[0]), num(grad.wrt(x))));
    assert!(close(num(fwd[1]), num(grad.wrt(y))));
    // And both agree with the hand-computed derivatives:
    // df/dx = y - y/x^2 - 1, df/dy = x + 1/x.
    assert!(close(num(fwd[0]), y0 - y0 / (x0 * x0) - 1.0));
    assert!(close(num(fwd[1]), x0 + 1.0 / x0));
}

#[test]
fn cross_mode_polynomial_exact() {
    // On a polynomial with small integer inputs every step is exact, so the
    // two modes agree bit for bit: f(x, y) = x*x*y + x + y at (2, 3).
    let f_test = |v: Vec<DualScalar>| v[0].mul(v[0]).mul(v[1]).add(v[0]).add(v[1]);
    let fwd = gradient(f_test, &vec![bits(2.0), bits(3.0)]);

    let mut tape = Tape::new();
    let x = tape.var(bits(2.0));
    let y = tape.var(bits(3.0));
    let x2 = tape.mul(x, x);
    let x2y = tape.mul(x2, y);
    let t1 = tape.add(x2y, x);
    let z = tape.add(t1, y);
    let grad = z.backprop(&tape);

    assert!(fwd[0] == grad.wrt(x));
    assert!(fwd[1] == grad.wrt(y));
    assert!(num(fwd[0]) == 13.0);
    assert!(num(fwd[1]) == 5.0);
}
