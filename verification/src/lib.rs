//! An automatic differentiation engine with two complementary modes.
//!
//! Forward mode ([`forward`]) propagates derivatives alongside values through
//! dual numbers: one evaluation per input yields one derivative channel, so
//! the cost of a gradient is linear in the number of inputs.
//!
//! Reverse mode ([`reverse`]) records the computation on an append-only tape
//! (a Wengert list) and propagates adjoints backward from a chosen output in
//! a single pass, yielding the partial derivatives with respect to every
//! recorded variable at once.
//!
//! Scalars are carried as IEEE-754 binary64 bit patterns ([`fp`]); arithmetic
//! on them follows IEEE-754 exactly, degenerate values (NaN, infinities)
//! propagating as the standard prescribes rather than raising errors.
pub mod forward;
pub mod fp;
pub mod mat;
pub mod reverse;
