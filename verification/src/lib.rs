//! Conditional application of arithmetic and bitwise operators.
//!
//! Each trait in this crate adds one `<op>_if` method to a type that already
//! supports the underlying operator: `a.<op>_if(condition, &b)` (binary) or
//! `a.<op>_if(condition)` (unary) returns the operator's result when
//! `condition` is true and an independent copy of `a` when it is false. The
//! operands are taken by shared reference and are never mutated; every call
//! produces a new value. The contracts pin the result down in both branches
//! and carry the underlying operator's own precondition, so the wrapper adds
//! no failure mode of its own.

mod arith;
mod bitwise;
mod laws;

pub use arith::{AddIf, DivIf, MulIf, NegIf, RemIf, SubIf};
pub use bitwise::{BitAndIf, BitOrIf, BitXorIf, NotIf, ShlIf, ShrIf};
pub use laws::{
    lemma_add_if_deterministic, lemma_bitand_if_deterministic, lemma_bitor_if_deterministic,
    lemma_bitxor_if_deterministic, lemma_div_if_deterministic, lemma_mul_if_deterministic,
    lemma_neg_if_deterministic, lemma_not_if_deterministic, lemma_rem_if_deterministic,
    lemma_shl_if_deterministic, lemma_shr_if_deterministic, lemma_sub_if_deterministic,
};
