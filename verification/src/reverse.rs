//! Reverse-mode differentiation: an append-only computation tape and
//! backpropagation.
//!
//! Every arithmetic operation on a [`Var`] appends one [`Node`] to the
//! [`Tape`] recording the local partial derivatives toward the operands;
//! derivative computation is deferred until [`Var::backprop`], which walks
//! the tape once from the last entry to the first, accumulating adjoints.
//! Because every node depends only on nodes at or before its own position,
//! that single reverse linear scan is a topologically valid backward pass.
use vstd::prelude::*;
use crate::fp::{
    add_bits, div_bits, mul_bits, neg_bits, sub_bits, fp_add, fp_div, fp_mul, fp_neg, fp_sub,
    BITS_NEG_ONE, BITS_ONE, BITS_ZERO,
};

verus! {

/// One recorded operation: the bit patterns of the local partial derivatives
/// toward its two parents, and the tape indices of those parents. A leaf or
/// unary node points its unused slot at itself with a partial of 0.0 — a
/// neutral self-loop, not a real dependency.
#[derive(Clone, Copy)]
pub struct Node {
    /// d(this node)/d(parent), for each of the two parents
    pub partials: [u64; 2],
    /// tape indices of the operands this node was computed from
    pub parents: [usize; 2],
}

/// A node placed at tape position `i` may only depend on positions at or
/// before `i` (equality only for the self-loop sentinel).
pub open spec fn node_wf(n: Node, i: int) -> bool {
    n.parents[0] <= i && n.parents[1] <= i
}

/// The tape: an append-only record of the computation graph. Entries are
/// only ever appended, never altered or removed, so a handle taken at any
/// point stays valid as the tape grows.
pub struct Tape {
    nodes: Vec<Node>,
}

impl View for Tape {
    type V = Seq<Node>;

    closed spec fn view(&self) -> Seq<Node> {
        self.nodes@
    }
}

/// A lightweight handle to one recorded node: its tape index and its value
/// as a bit pattern. Handles are plain copies; the tape itself is handed to
/// each operation by exclusive reference, so two appends can never
/// interleave.
#[derive(Clone, Copy)]
pub struct Var {
    /// index of the node this handle was returned for
    pub index: usize,
    /// value of the recorded expression, as a binary64 bit pattern
    pub v: u64,
}

/// One step of the backward pass at position `i`: fold node `i`'s
/// contribution into the adjoint of each of its two parents, reading the
/// adjoint of `i` afresh before each contribution, exactly as the scan does.
pub open spec fn bp_step(nodes: Seq<Node>, a: Seq<u64>, i: int) -> Seq<u64> {
    let n = nodes[i];
    let p0 = n.parents[0] as int;
    let p1 = n.parents[1] as int;
    let a1 = a.update(p0, add_bits(a[p0], mul_bits(n.partials[0], a[i])));
    a1.update(p1, add_bits(a1[p1], mul_bits(n.partials[1], a1[i])))
}

/// Adjoints after sweeping positions `k - 1` down to `0` over `a`.
pub open spec fn bp_sweep(nodes: Seq<Node>, a: Seq<u64>, k: int) -> Seq<u64>
    decreases k,
{
    if k <= 0 {
        a
    } else {
        bp_sweep(nodes, bp_step(nodes, a, k - 1), k - 1)
    }
}

/// Initial adjoints: 0.0 in every slot, 1.0 at the seed.
pub open spec fn bp_init(len: nat, seed: int) -> Seq<u64> {
    Seq::new(len, |j: int| if j == seed { BITS_ONE } else { BITS_ZERO })
}

/// The adjoints produced by one full backward pass over `nodes`, seeded
/// with 1.0 at position `seed`: a pure function of the recorded tape and
/// the seed alone.
pub open spec fn backprop_spec(nodes: Seq<Node>, seed: int) -> Seq<u64> {
    bp_sweep(nodes, bp_init(nodes.len(), seed), nodes.len() as int)
}

impl Tape {
    /// Every recorded node depends only on positions at or before its own.
    pub open spec fn wf(&self) -> bool {
        forall|i: int| 0 <= i < self@.len() ==> node_wf(#[trigger] self@[i], i)
    }

    /// Create an empty tape.
    pub fn new() -> (t: Tape)
        ensures
            t@ == Seq::<Node>::empty(),
            t.wf(),
    {
        Tape { nodes: Vec::new() }
    }

    /// The number of recorded nodes.
    pub fn len(&self) -> (n: usize)
        ensures
            n == self@.len(),
    {
        self.nodes.len()
    }

    /// Read one recorded node.
    pub fn node_at(&self, i: usize) -> (n: Node)
        requires
            i < self@.len(),
        ensures
            n == self@[i as int],
    {
        self.nodes[i]
    }

    /// Record a new input variable: appends one leaf node whose parents
    /// point at itself with partials of 0.0. Every entry already on the
    /// tape is left exactly as it was; the length grows by one.
    pub fn var(&mut self, value: u64) -> (r: Var)
        requires
            old(self).wf(),
        ensures
            final(self).wf(),
            final(self)@.len() == old(self)@.len() + 1,
            forall|i: int| 0 <= i < old(self)@.len() ==> final(self)@[i] == old(self)@[i],
            final(self)@ == old(self)@.push(
                (Node {
                    partials: [BITS_ZERO, BITS_ZERO],
                    parents: [old(self)@.len() as usize, old(self)@.len() as usize],
                }),
            ),
            r.index as int == old(self)@.len() as int,
            r.v == value,
    {
        let len = self.nodes.len();
        self.nodes.push(Node { partials: [BITS_ZERO, BITS_ZERO], parents: [len, len] });
        Var { index: len, v: value }
    }

    /// Record the result of a unary operation on the node at `index`, with
    /// local partial `partial` toward it; the second slot is the neutral
    /// self-loop. Every entry already on the tape is left exactly as it
    /// was; the length grows by one.
    pub fn unary_op(&mut self, partial: u64, index: usize, new_value: u64) -> (r: Var)
        requires
            old(self).wf(),
            index < old(self)@.len(),
        ensures
            final(self).wf(),
            final(self)@.len() == old(self)@.len() + 1,
            forall|i: int| 0 <= i < old(self)@.len() ==> final(self)@[i] == old(self)@[i],
            final(self)@ == old(self)@.push(
                (Node {
                    partials: [partial, BITS_ZERO],
                    parents: [index, old(self)@.len() as usize],
                }),
            ),
            r.index as int == old(self)@.len() as int,
            r.v == new_value,
    {
        let len = self.nodes.len();
        self.nodes.push(Node { partials: [partial, BITS_ZERO], parents: [index, len] });
        Var { index: len, v: new_value }
    }

    /// Record the result of a binary operation on the nodes at `lhs_index`
    /// and `rhs_index`, with local partials `lhs_partial` and `rhs_partial`
    /// toward them. Every entry already on the tape is left exactly as it
    /// was; the length grows by one.
    pub fn binary_op(
        &mut self,
        lhs_partial: u64,
        rhs_partial: u64,
        lhs_index: usize,
        rhs_index: usize,
        new_value: u64,
    ) -> (r: Var)
        requires
            old(self).wf(),
            lhs_index < old(self)@.len(),
            rhs_index < old(self)@.len(),
        ensures
            final(self).wf(),
            final(self)@.len() == old(self)@.len() + 1,
            forall|i: int| 0 <= i < old(self)@.len() ==> final(self)@[i] == old(self)@[i],
            final(self)@ == old(self)@.push(
                (Node {
                    partials: [lhs_partial, rhs_partial],
                    parents: [lhs_index, rhs_index],
                }),
            ),
            r.index as int == old(self)@.len() as int,
            r.v == new_value,
    {
        let len = self.nodes.len();
        self.nodes.push(
            Node { partials: [lhs_partial, rhs_partial], parents: [lhs_index, rhs_index] },
        );
        Var { index: len, v: new_value }
    }

    /// z = x + y: value x + y, local partials [1.0, 1.0].
    pub fn add(&mut self, lhs: Var, rhs: Var) -> (r: Var)
        requires
            old(self).wf(),
            lhs.index < old(self)@.len(),
            rhs.index < old(self)@.len(),
        ensures
            final(self).wf(),
            final(self)@ == old(self)@.push(
                (Node { partials: [BITS_ONE, BITS_ONE], parents: [lhs.index, rhs.index] }),
            ),
            r.index as int == old(self)@.len() as int,
            r.v == add_bits(lhs.v, rhs.v),
    {
        let value = fp_add(lhs.v, rhs.v);
        self.binary_op(BITS_ONE, BITS_ONE, lhs.index, rhs.index, value)
    }

    /// z = x - y: value x - y, local partials [1.0, -1.0].
    pub fn sub(&mut self, lhs: Var, rhs: Var) -> (r: Var)
        requires
            old(self).wf(),
            lhs.index < old(self)@.len(),
            rhs.index < old(self)@.len(),
        ensures
            final(self).wf(),
            final(self)@ == old(self)@.push(
                (Node { partials: [BITS_ONE, BITS_NEG_ONE], parents: [lhs.index, rhs.index] }),
            ),
            r.index as int == old(self)@.len() as int,
            r.v == sub_bits(lhs.v, rhs.v),
    {
        let value = fp_sub(lhs.v, rhs.v);
        self.binary_op(BITS_ONE, BITS_NEG_ONE, lhs.index, rhs.index, value)
    }

    /// z = x * y: value x * y, local partials [y, x].
    pub fn mul(&mut self, lhs: Var, rhs: Var) -> (r: Var)
        requires
            old(self).wf(),
            lhs.index < old(self)@.len(),
            rhs.index < old(self)@.len(),
        ensures
            final(self).wf(),
            final(self)@ == old(self)@.push(
                (Node { partials: [rhs.v, lhs.v], parents: [lhs.index, rhs.index] }),
            ),
            r.index as int == old(self)@.len() as int,
            r.v == mul_bits(lhs.v, rhs.v),
    {
        let value = fp_mul(lhs.v, rhs.v);
        self.binary_op(rhs.v, lhs.v, lhs.index, rhs.index, value)
    }

    /// z = x / y: value x / y, local partials [1/y, -x/y²]. A zero
    /// denominator is not an error: infinities and NaN propagate through
    /// the value and the partials as IEEE-754 prescribes.
    pub fn div(&mut self, lhs: Var, rhs: Var) -> (r: Var)
        requires
            old(self).wf(),
            lhs.index < old(self)@.len(),
            rhs.index < old(self)@.len(),
        ensures
            final(self).wf(),
            final(self)@ == old(self)@.push(
                (Node {
                    partials: [
                        div_bits(BITS_ONE, rhs.v),
                        neg_bits(div_bits(lhs.v, mul_bits(rhs.v, rhs.v))),
                    ],
                    parents: [lhs.index, rhs.index],
                }),
            ),
            r.index as int == old(self)@.len() as int,
            r.v == div_bits(lhs.v, rhs.v),
    {
        let lhs_partial = fp_div(BITS_ONE, rhs.v);
        let rhs_partial = fp_neg(fp_div(lhs.v, fp_mul(rhs.v, rhs.v)));
        let value = fp_div(lhs.v, rhs.v);
        self.binary_op(lhs_partial, rhs_partial, lhs.index, rhs.index, value)
    }

    /// z = -x: value -x, local partial -1.0.
    pub fn neg(&mut self, x: Var) -> (r: Var)
        requires
            old(self).wf(),
            x.index < old(self)@.len(),
        ensures
            final(self).wf(),
            final(self)@ == old(self)@.push(
                (Node {
                    partials: [BITS_NEG_ONE, BITS_ZERO],
                    parents: [x.index, old(self)@.len() as usize],
                }),
            ),
            r.index as int == old(self)@.len() as int,
            r.v == neg_bits(x.v),
    {
        let value = fp_neg(x.v);
        self.unary_op(BITS_NEG_ONE, x.index, value)
    }

    /// z = c * x for a constant scalar `c` (as a bit pattern): value c * x,
    /// local partial c.
    pub fn scale(&mut self, c: u64, x: Var) -> (r: Var)
        requires
            old(self).wf(),
            x.index < old(self)@.len(),
        ensures
            final(self).wf(),
            final(self)@ == old(self)@.push(
                (Node { partials: [c, BITS_ZERO], parents: [x.index, old(self)@.len() as usize] }),
            ),
            r.index as int == old(self)@.len() as int,
            r.v == mul_bits(c, x.v),
    {
        let value = fp_mul(c, x.v);
        self.unary_op(c, x.index, value)
    }
}

impl Var {
    /// Walk the tape once from the last entry down to the first,
    /// accumulating adjoints from a seed of 1.0 at this variable's node.
    /// The result is exactly `backprop_spec` of the recorded tape and the
    /// seed — a pure function of the two — and the pass only reads the
    /// tape, which it takes by shared reference.
    pub fn backprop(&self, tape: &Tape) -> (g: Grad)
        requires
            tape.wf(),
            self.index < tape@.len(),
        ensures
            g.grad@ == backprop_spec(tape@, self.index as int),
            g.grad@.len() == tape@.len(),
    {
        let n = tape.len();
        let mut grad: Vec<u64> = Vec::new();
        let mut j: usize = 0;
        while j < n
            invariant
                j <= n,
                grad@.len() == j as int,
                forall|k: int| 0 <= k < j ==> grad@[k] == bp_init(n as nat, self.index as int)[k],
            decreases n - j,
        {
            if j == self.index {
                grad.push(BITS_ONE);
            } else {
                grad.push(BITS_ZERO);
            }
            j += 1;
        }
        proof {
            assert(grad@ =~= bp_init(tape@.len(), self.index as int));
        }

        let mut i: usize = n;
        while i > 0
            invariant
                i <= n,
                n == tape@.len(),
                tape.wf(),
                grad@.len() == n as int,
                bp_sweep(tape@, grad@, i as int) == backprop_spec(tape@, self.index as int),
            decreases i,
        {
            i -= 1;
            let ghost a0 = grad@;
            let node = tape.node_at(i);
            proof {
                assert(node_wf(tape@[i as int], i as int));
            }
            let p0 = node.parents[0];
            let q0 = node.partials[0];
            let c0 = fp_add(grad[p0], fp_mul(q0, grad[i]));
            grad[p0] = c0;
            let p1 = node.parents[1];
            let q1 = node.partials[1];
            let c1 = fp_add(grad[p1], fp_mul(q1, grad[i]));
            grad[p1] = c1;
            proof {
                assert(grad@ == bp_step(tape@, a0, i as int));
                assert(bp_sweep(tape@, a0, i + 1) == bp_sweep(
                    tape@,
                    bp_step(tape@, a0, i as int),
                    i as int,
                ));
            }
        }
        Grad { grad }
    }
}

/// The adjoint vector produced by one backward pass: one slot per node
/// recorded at the time of the pass, immutable once produced.
#[derive(Debug)]
pub struct Grad {
    /// adjoint of each tape position, as a binary64 bit pattern
    pub grad: Vec<u64>,
}

impl Grad {
    /// The adjoint of `var`: d(seeded output)/d(var), as a bit pattern.
    /// The handle must point into the range this pass covered — one taken
    /// from a since-extended or different tape is excluded by the
    /// precondition, and an unverified caller presenting one is stopped by
    /// the bounds check rather than handed a made-up value.
    pub fn wrt(&self, var: Var) -> (r: u64)
        requires
            var.index < self.grad@.len(),
        ensures
            r == self.grad@[var.index as int],
    {
        self.grad[var.index]
    }
}

/// Appending one node to a tape leaves every entry already recorded exactly
/// as it was and grows the length by exactly one; hence after `n` variable
/// creations and `m` operator applications a tape holds exactly `n + m`
/// nodes, the earlier ones unchanged.
pub proof fn lemma_append_only(nodes: Seq<Node>, n: Node)
    ensures
        nodes.push(n).len() == nodes.len() + 1,
        forall|i: int| 0 <= i < nodes.len() ==> nodes.push(n)[i] == nodes[i],
{
}

/// Backpropagation is a pure function of the recorded tape and the seed
/// index: two passes from the same variable over the same tape yield
/// bit-identical adjoints, and a pass never changes the tape.
pub proof fn lemma_backprop_idempotent(nodes: Seq<Node>, seed: int, g1: Seq<u64>, g2: Seq<u64>)
    requires
        g1 == backprop_spec(nodes, seed),
        g2 == backprop_spec(nodes, seed),
    ensures
        g1 == g2,
{
}

} // verus!
