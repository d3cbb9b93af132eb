//! Forward-mode differentiation via dual numbers.
//!
//! A [`DualScalar`] carries a value together with the derivative of that
//! value with respect to one seeded input; the arithmetic below combines
//! values by ordinary IEEE-754 arithmetic and derivatives by the exact
//! calculus rules. The drivers [`derivative`], [`gradient`] and [`jacobian`]
//! evaluate a caller's function over such pairs, seeding one derivative
//! channel at a time: a gradient over `n` inputs costs exactly `n`
//! evaluations, and a Jacobian is assembled column by column at the same
//! cost, independent of the number of outputs.
use vstd::prelude::*;
use crate::fp::{
    add_bits, div_bits, mul_bits, sub_bits, fp_add, fp_div, fp_mul, fp_sub, BITS_NEG_ZERO,
    BITS_ONE, BITS_ZERO,
};
use crate::mat::Mat;

verus! {

/// A dual number: a value `v` and the derivative `dv` of that value with
/// respect to the seeded input, both as binary64 bit patterns. Every
/// operation builds a new instance; none is mutated after construction.
#[derive(Clone, Copy, Debug)]
pub struct DualScalar {
    /// the value, as a binary64 bit pattern
    pub v: u64,
    /// d(value)/d(seeded input), as a binary64 bit pattern
    pub dv: u64,
}

/// Sum rule: values add, derivatives add.
pub open spec fn dual_add(a: DualScalar, b: DualScalar) -> DualScalar {
    DualScalar { v: add_bits(a.v, b.v), dv: add_bits(a.dv, b.dv) }
}

/// Difference rule: values subtract, derivatives subtract.
pub open spec fn dual_sub(a: DualScalar, b: DualScalar) -> DualScalar {
    DualScalar { v: sub_bits(a.v, b.v), dv: sub_bits(a.dv, b.dv) }
}

/// Product rule: d(ab) = da * b + a * db, evaluated in that order.
pub open spec fn dual_mul(a: DualScalar, b: DualScalar) -> DualScalar {
    DualScalar {
        v: mul_bits(a.v, b.v),
        dv: add_bits(mul_bits(a.dv, b.v), mul_bits(a.v, b.dv)),
    }
}

/// Quotient rule: d(a/b) = (da * b - a * db) / b², evaluated in that order.
/// A zero denominator yields NaN or an infinity per IEEE-754; that is the
/// accepted behaviour, not an error.
pub open spec fn dual_div(a: DualScalar, b: DualScalar) -> DualScalar {
    DualScalar {
        v: div_bits(a.v, b.v),
        dv: div_bits(
            sub_bits(mul_bits(a.dv, b.v), mul_bits(a.v, b.dv)),
            mul_bits(b.v, b.v),
        ),
    }
}

/// True exactly when `v` is the bit pattern of one of the two IEEE-754
/// zeros, which are the only values equal to 0.0 under float comparison.
pub open spec fn is_zero_bits(v: u64) -> bool {
    v == BITS_ZERO || v == BITS_NEG_ZERO
}

impl DualScalar {
    /// The dual number (0.0, 0.0).
    pub fn zero() -> (r: DualScalar)
        ensures
            r == (DualScalar { v: BITS_ZERO, dv: BITS_ZERO }),
    {
        DualScalar { v: BITS_ZERO, dv: BITS_ZERO }
    }

    /// Whether the value compares equal to 0.0: true for both IEEE-754
    /// zeros and nothing else (in particular not for NaN).
    pub fn is_zero(&self) -> (r: bool)
        ensures
            r == is_zero_bits(self.v),
    {
        self.v == BITS_ZERO || self.v == BITS_NEG_ZERO
    }

    /// The derivative carried by this dual number.
    pub fn deriv(&self) -> (r: u64)
        ensures
            r == self.dv,
    {
        self.dv
    }

    /// a + b by the sum rule.
    pub fn add(self, rhs: DualScalar) -> (r: DualScalar)
        ensures
            r == dual_add(self, rhs),
    {
        DualScalar { v: fp_add(self.v, rhs.v), dv: fp_add(self.dv, rhs.dv) }
    }

    /// a += b by the sum rule.
    pub fn add_assign(&mut self, rhs: DualScalar)
        ensures
            *final(self) == dual_add(*old(self), rhs),
    {
        *self = DualScalar { v: fp_add(self.v, rhs.v), dv: fp_add(self.dv, rhs.dv) };
    }

    /// a - b by the difference rule.
    pub fn sub(self, rhs: DualScalar) -> (r: DualScalar)
        ensures
            r == dual_sub(self, rhs),
    {
        DualScalar { v: fp_sub(self.v, rhs.v), dv: fp_sub(self.dv, rhs.dv) }
    }

    /// a * b by the product rule.
    pub fn mul(self, rhs: DualScalar) -> (r: DualScalar)
        ensures
            r == dual_mul(self, rhs),
    {
        DualScalar {
            v: fp_mul(self.v, rhs.v),
            dv: fp_add(fp_mul(self.dv, rhs.v), fp_mul(self.v, rhs.dv)),
        }
    }

    /// a *= b by the product rule.
    pub fn mul_assign(&mut self, rhs: DualScalar)
        ensures
            *final(self) == dual_mul(*old(self), rhs),
    {
        *self = DualScalar {
            v: fp_mul(self.v, rhs.v),
            dv: fp_add(fp_mul(self.dv, rhs.v), fp_mul(self.v, rhs.dv)),
        };
    }

    /// a / b by the quotient rule; a zero denominator propagates NaN or
    /// infinity per IEEE-754.
    pub fn div(self, rhs: DualScalar) -> (r: DualScalar)
        ensures
            r == dual_div(self, rhs),
    {
        DualScalar {
            v: fp_div(self.v, rhs.v),
            dv: fp_div(
                fp_sub(fp_mul(self.dv, rhs.v), fp_mul(self.v, rhs.dv)),
                fp_mul(rhs.v, rhs.v),
            ),
        }
    }
}

/// The dual-number inputs for one forward pass over the point `xs`: the
/// values of `xs` with derivative channel 1.0 at position `i` and 0.0
/// everywhere else.
pub open spec fn seeded(xs: Seq<u64>, i: int) -> Seq<DualScalar> {
    Seq::new(
        xs.len(),
        |j: int| DualScalar { v: xs[j], dv: if j == i { BITS_ONE } else { BITS_ZERO } },
    )
}

/// `out` is the derivative channel of some output `func` can produce on the
/// inputs seeded at position `i` of `xs`.
pub open spec fn grad_entry_ok<F: Fn(Vec<DualScalar>) -> DualScalar>(
    func: F,
    xs: Seq<u64>,
    i: int,
    out: u64,
) -> bool {
    exists|v: Vec<DualScalar>, y: DualScalar|
        v@ == seeded(xs, i) && #[trigger] call_ensures(func, (v,), y) && out == y.dv
}

/// `col` is the derivative channel, component by component, of some output
/// `func` can produce on the inputs seeded at position `i` of `xs`.
pub open spec fn jac_col_ok<F: Fn(Vec<DualScalar>) -> Vec<DualScalar>>(
    func: F,
    xs: Seq<u64>,
    i: int,
    col: Seq<u64>,
) -> bool {
    exists|v: Vec<DualScalar>, y: Vec<DualScalar>|
        v@ == seeded(xs, i) && #[trigger] call_ensures(func, (v,), y) && col.len() == y@.len()
            && (forall|j: int| 0 <= j < y@.len() ==> col[j] == y@[j].dv)
}

/// Column `c` of the matrix, top to bottom.
pub open spec fn col_of(m: Mat, c: int) -> Seq<u64> {
    Seq::new(m.spec_rows() as nat, |r: int| m.entry(r, c))
}

/// The derivative of `func` at `x0` (bit patterns throughout): seed the
/// derivative channel with 1.0 at `x0`, evaluate once, read the channel of
/// the result. One evaluation, whatever `func` costs.
pub fn derivative<F: FnOnce(DualScalar) -> DualScalar>(func: F, x0: u64) -> (r: u64)
    requires
        call_requires(func, ((DualScalar { v: x0, dv: BITS_ONE }),)),
    ensures
        exists|y: DualScalar|
            #[trigger] call_ensures(func, ((DualScalar { v: x0, dv: BITS_ONE }),), y) && r == y.dv,
{
    let out = func(DualScalar { v: x0, dv: BITS_ONE });
    out.deriv()
}

/// Build the inputs for one forward pass: the values of `x0` with the
/// derivative channel 1.0 at `seed` and 0.0 elsewhere.
fn seed_vec(x0: &Vec<u64>, seed: usize) -> (r: Vec<DualScalar>)
    ensures
        r@ == seeded(x0@, seed as int),
{
    let mut r: Vec<DualScalar> = Vec::new();
    let mut j: usize = 0;
    while j < x0.len()
        invariant
            j <= x0@.len(),
            r@.len() == j as int,
            forall|k: int| 0 <= k < j ==> r@[k] == seeded(x0@, seed as int)[k],
        decreases x0@.len() - j,
    {
        let dv = if j == seed {
            BITS_ONE
        } else {
            BITS_ZERO
        };
        r.push(DualScalar { v: x0[j], dv });
        j += 1;
    }
    proof {
        assert(r@ =~= seeded(x0@, seed as int));
    }
    r
}

/// The gradient of `func` at the point `x0` (bit patterns throughout).
/// For each input index `i`, the inputs are passed through `func` once with
/// the derivative channel seeded at `i`, and component `i` of the result is
/// the derivative channel of that output: exactly `x0.len()` evaluations,
/// the defining cost of forward mode, independent of how many intermediates
/// `func` builds.
pub fn gradient<F: Fn(Vec<DualScalar>) -> DualScalar>(func: F, x0: &Vec<u64>) -> (r: Vec<u64>)
    requires
        forall|v: Vec<DualScalar>|
            (exists|i: int| 0 <= i < x0@.len() && v@ == seeded(x0@, i)) ==> #[trigger] call_requires(
                func,
                (v,),
            ),
    ensures
        r@.len() == x0@.len(),
        forall|i: int| 0 <= i < x0@.len() ==> #[trigger] grad_entry_ok(func, x0@, i, r@[i]),
{
    let n = x0.len();
    let mut r: Vec<u64> = Vec::new();
    let mut i: usize = 0;
    while i < n
        invariant
            n == x0@.len(),
            i <= n,
            r@.len() == i as int,
            forall|v: Vec<DualScalar>|
                (exists|k: int| 0 <= k < x0@.len() && v@ == seeded(x0@, k))
                    ==> #[trigger] call_requires(func, (v,)),
            forall|k: int| 0 <= k < i ==> #[trigger] grad_entry_ok(func, x0@, k, r@[k]),
        decreases n - i,
    {
        let inputs = seed_vec(x0, i);
        let ghost v0 = inputs;
        let out = func(inputs);
        r.push(out.deriv());
        proof {
            assert(grad_entry_ok(func, x0@, i as int, out.dv));
        }
        i += 1;
    }
    r
}

/// Extract the derivative channel of each component.
fn derivs_of(outs: &Vec<DualScalar>) -> (r: Vec<u64>)
    ensures
        r@.len() == outs@.len(),
        forall|j: int| 0 <= j < outs@.len() ==> r@[j] == outs@[j].dv,
{
    let mut r: Vec<u64> = Vec::new();
    let mut j: usize = 0;
    while j < outs.len()
        invariant
            j <= outs@.len(),
            r@.len() == j as int,
            forall|k: int| 0 <= k < j ==> r@[k] == outs@[k].dv,
        decreases outs@.len() - j,
    {
        r.push(outs[j].dv);
        j += 1;
    }
    r
}

/// The Jacobian of `func` (with `m` output components) at the point `x0`
/// (bit patterns throughout), as an `m` x `x0.len()` matrix: row = output
/// component, column = input component. Assembled column-wise: for each
/// input index `i`, one evaluation of `func` with the derivative channel
/// seeded at `i` yields the whole column `i` — exactly `x0.len()`
/// evaluations in total, independent of `m`.
pub fn jacobian<F: Fn(Vec<DualScalar>) -> Vec<DualScalar>>(
    func: F,
    x0: &Vec<u64>,
    m: usize,
) -> (r: Mat)
    requires
        m * x0@.len() <= usize::MAX,
        forall|v: Vec<DualScalar>|
            (exists|i: int| 0 <= i < x0@.len() && v@ == seeded(x0@, i)) ==> #[trigger] call_requires(
                func,
                (v,),
            ),
        forall|v: Vec<DualScalar>, y: Vec<DualScalar>|
            #[trigger] call_ensures(func, (v,), y) ==> y@.len() == m as int,
    ensures
        r.wf(),
        r.spec_rows() == m as int,
        r.spec_cols() == x0@.len() as int,
        forall|i: int| 0 <= i < x0@.len() ==> #[trigger] jac_col_ok(func, x0@, i, col_of(r, i)),
{
    let n = x0.len();
    let mut mat = Mat::zeros(m, n);
    let mut i: usize = 0;
    while i < n
        invariant
            n == x0@.len(),
            i <= n,
            mat.wf(),
            mat.spec_rows() == m as int,
            mat.spec_cols() == n as int,
            forall|v: Vec<DualScalar>|
                (exists|k: int| 0 <= k < x0@.len() && v@ == seeded(x0@, k))
                    ==> #[trigger] call_requires(func, (v,)),
            forall|v: Vec<DualScalar>, y: Vec<DualScalar>|
                #[trigger] call_ensures(func, (v,), y) ==> y@.len() == m as int,
            forall|k: int| 0 <= k < i ==> #[trigger] jac_col_ok(func, x0@, k, col_of(mat, k)),
        decreases n - i,
    {
        let inputs = seed_vec(x0, i);
        let ghost v0 = inputs;
        let outs = func(inputs);
        let col = derivs_of(&outs);
        let ghost mat_before = mat;
        mat.set_column(i, &col);
        proof {
            assert forall|k: int| 0 <= k < i + 1 implies #[trigger] jac_col_ok(
                func,
                x0@,
                k,
                col_of(mat, k),
            ) by {
                if k < i {
                    assert(col_of(mat, k) =~= col_of(mat_before, k));
                } else {
                    assert(col_of(mat, k) =~= col@);
                    assert(jac_col_ok(func, x0@, k, col@));
                }
            }
        }
        i += 1;
    }
    mat
}

} // verus!
