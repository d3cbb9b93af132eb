use diff_lib::reverse::Tape;

fn bits(x: f64) -> u64 {
    x.to_bits()
}

fn num(b: u64) -> f64 {
    f64::from_bits(b)
}

#[test]
fn addition() {
    let mut tape = Tape::new();
    let x = tape.var(bits(1.0));
    let y = tape.var(bits(4.0));
    let z = tape.add(x, y);
    let grad = z.backprop(&tape);
    assert!(num(grad.wrt(x)) == 1.0);
    assert!(num(grad.wrt(y)) == 1.0);
}

#[test]
fn mul() {
    let mut tape = Tape::new();
    let x = tape.var(bits(1.0));
    let y = tape.var(bits(4.0));
    let z = tape.mul(x, y);
    let grad = z.backprop(&tape);
    assert!(num(grad.wrt(x)) == num(y.v));
    assert!(num(grad.wrt(y)) == num(x.v));
}

#[test]
fn neg() {
    let mut tape = Tape::new();
    let x = tape.var(bits(1.0));
    let z = tape.neg(x);
    let grad = z.backprop(&tape);
    assert!(num(grad.wrt(x)) == -1.0);
}

#[test]
fn multiple_multiplications() {
    let mut tape = Tape::new();
    let x = tape.var(bits(1.0));
    let y = tape.var(bits(1.0));
    // z = -2x + x^3 * y
    let minus_two_x = tape.scale(bits(-2.0), x);
    let x2 = tape.mul(x, x);
    let x3 = tape.mul(x2, x);
    let x3y = tape.mul(x3, y);
    let z = tape.add(minus_two_x, x3y);
    let grad = z.backprop(&tape);
    assert!(num(grad.wrt(x)) == 1.0);
}

#[test]
fn subtraction() {
    let mut tape = Tape::new();
    let x = tape.var(bits(3.0));
    let y = tape.var(bits(5.0));
    let z = tape.sub(x, y);
    assert!(num(z.v) == -2.0);
    let grad = z.backprop(&tape);
    assert!(num(grad.wrt(x)) == 1.0);
    assert!(num(grad.wrt(y)) == -1.0);
}

#[test]
fn division() {
    let mut tape = Tape::new();
    let x = tape.var(bits(1.0));
    let y = tape.var(bits(2.0));
    let z = tape.div(x, y);
    assert!(num(z.v) == 0.5);
    let grad = z.backprop(&tape);
    assert!(num(grad.wrt(x)) == 0.5);
    assert!(num(grad.wrt(y)) == -0.25);
}

#[test]
fn scaling_by_a_constant() {
    let mut tape = Tape::new();
    let x = tape.var(bits(3.0));
    let z = tape.scale(bits(0.5), x);
    assert!(num(z.v) == 1.5);
    let grad = z.backprop(&tape);
    assert!(num(grad.wrt(x)) == 0.5);
}

#[test]
fn leaf_self_consistency() {
    // A lone input variable: the self-loop sentinel contributes nothing
    // beyond the seed, so its own adjoint is exactly 1.0.
    let mut tape = Tape::new();
    let x = tape.var(bits(1.0));
    let grad = x.backprop(&tape);
    assert!(num(grad.wrt(x)) == 1.0);
}

#[test]
fn end_to_end_polynomial() {
    // z = -2x + x^3 * y + 2y at x = y = 1:
    // dz/dx = -2 + 3x^2 y = 1, dz/dy = x^3 + 2 = 3.
    let mut tape = Tape::new();
    let x = tape.var(bits(1.0));
    let y = tape.var(bits(1.0));
    let minus_two_x = tape.scale(bits(-2.0), x);
    let x2 = tape.mul(x, x);
    let x3 = tape.mul(x2, x);
    let x3y = tape.mul(x3, y);
    let two_y = tape.scale(bits(2.0), y);
    let sum = tape.add(minus_two_x, x3y);
    let z = tape.add(sum, two_y);
    let grad = z.backprop(&tape);
    assert!(num(grad.wrt(x)) == 1.0);
    assert!(num(grad.wrt(y)) == 3.0);
}

#[test]
fn tape_is_append_only() {
    // After n variable creations and m operator applications the tape holds
    // exactly n + m nodes, and no earlier entry's partials or parents ever
    // change.
    let mut tape = Tape::new();
    assert!(tape.len() == 0);
    let x = tape.var(bits(2.0));
    let y = tape.var(bits(7.0));
    assert!(tape.len() == 2);
    let before: Vec<_> = (0..tape.len()).map(|i| tape.node_at(i)).collect();
    let p = tape.mul(x, y);
    let q = tape.add(p, x);
    let _r = tape.div(q, y);
    let _s = tape.neg(q);
    // n = 2 variables, m = 4 operator applications
    assert!(tape.len() == 6);
    for (i, old) in before.iter().enumerate() {
        let now = tape.node_at(i);
        assert!(now.partials == old.partials);
        assert!(now.parents == old.parents);
    }
}

#[test]
fn backprop_is_idempotent() {
    // Two passes from the same variable over the same tape yield
    // bit-identical adjoint vectors, and reading never changes the tape.
    let mut tape = Tape::new();
    let x = tape.var(bits(1.5));
    let y = tape.var(bits(-2.0));
    let p = tape.mul(x, y);
    let z = tape.div(p, x);
    let len_before = tape.len();
    let g1 = z.backprop(&tape);
    let g2 = z.backprop(&tape);
    assert!(g1.grad == g2.grad);
    assert!(tape.len() == len_before);
    for i in 0..tape.len() {
        assert!(g1.grad[i] == g2.grad[i]);
    }
}

#[test]
fn backprop_covers_tape_at_seed_time() {
    // The adjoint vector has one slot per node recorded on the tape.
    let mut tape = Tape::new();
    let x = tape.var(bits(1.0));
    let y = tape.var(bits(2.0));
    let z = tape.add(x, y);
    let grad = z.backprop(&tape);
    assert!(grad.grad.len() == 3);
}
