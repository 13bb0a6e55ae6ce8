//! Laws shared by every conditional operator.
//!
//! The contract of each `<op>_if` method fixes the result completely: the
//! operator's value when the condition is true, the left operand when it is
//! false. The lemmas here make the consequence explicit: the result is a
//! function of the operands and the condition alone, so any two results that
//! meet one method's contract for the same inputs are equal.

use vstd::prelude::*;

use crate::arith::{AddIf, DivIf, MulIf, NegIf, RemIf, SubIf};
use crate::bitwise::{BitAndIf, BitOrIf, BitXorIf, NotIf, ShlIf, ShrIf};

verus! {

/// Law: `add_if` is deterministic — two results that meet its contract for
/// the same operands and condition are equal.
pub proof fn lemma_add_if_deterministic<T: AddIf>(a: T, condition: bool, b: T, r1: T, r2: T)
    requires
        condition ==> r1 == a.add_if_val(&b) && r2 == a.add_if_val(&b),
        !condition ==> r1 == a && r2 == a,
    ensures
        r1 == r2,
{
}

/// Law: `sub_if` is deterministic — two results that meet its contract for
/// the same operands and condition are equal.
pub proof fn lemma_sub_if_deterministic<T: SubIf>(a: T, condition: bool, b: T, r1: T, r2: T)
    requires
        condition ==> r1 == a.sub_if_val(&b) && r2 == a.sub_if_val(&b),
        !condition ==> r1 == a && r2 == a,
    ensures
        r1 == r2,
{
}

/// Law: `mul_if` is deterministic — two results that meet its contract for
/// the same operands and condition are equal.
pub proof fn lemma_mul_if_deterministic<T: MulIf>(a: T, condition: bool, b: T, r1: T, r2: T)
    requires
        condition ==> r1 == a.mul_if_val(&b) && r2 == a.mul_if_val(&b),
        !condition ==> r1 == a && r2 == a,
    ensures
        r1 == r2,
{
}

/// Law: `div_if` is deterministic — two results that meet its contract for
/// the same operands and condition are equal.
pub proof fn lemma_div_if_deterministic<T: DivIf>(a: T, condition: bool, b: T, r1: T, r2: T)
    requires
        condition ==> r1 == a.div_if_val(&b) && r2 == a.div_if_val(&b),
        !condition ==> r1 == a && r2 == a,
    ensures
        r1 == r2,
{
}

/// Law: `rem_if` is deterministic — two results that meet its contract for
/// the same operands and condition are equal.
pub proof fn lemma_rem_if_deterministic<T: RemIf>(a: T, condition: bool, b: T, r1: T, r2: T)
    requires
        condition ==> r1 == a.rem_if_val(&b) && r2 == a.rem_if_val(&b),
        !condition ==> r1 == a && r2 == a,
    ensures
        r1 == r2,
{
}

/// Law: `neg_if` is deterministic — two results that meet its contract for
/// the same operand and condition are equal.
pub proof fn lemma_neg_if_deterministic<T: NegIf>(a: T, condition: bool, r1: T, r2: T)
    requires
        condition ==> r1 == a.neg_if_val() && r2 == a.neg_if_val(),
        !condition ==> r1 == a && r2 == a,
    ensures
        r1 == r2,
{
}

/// Law: `bitand_if` is deterministic — two results that meet its contract
/// for the same operands and condition are equal.
pub proof fn lemma_bitand_if_deterministic<T: BitAndIf>(a: T, condition: bool, b: T, r1: T, r2: T)
    requires
        condition ==> r1 == a.bitand_if_val(&b) && r2 == a.bitand_if_val(&b),
        !condition ==> r1 == a && r2 == a,
    ensures
        r1 == r2,
{
}

/// Law: `bitor_if` is deterministic — two results that meet its contract for
/// the same operands and condition are equal.
pub proof fn lemma_bitor_if_deterministic<T: BitOrIf>(a: T, condition: bool, b: T, r1: T, r2: T)
    requires
        condition ==> r1 == a.bitor_if_val(&b) && r2 == a.bitor_if_val(&b),
        !condition ==> r1 == a && r2 == a,
    ensures
        r1 == r2,
{
}

/// Law: `bitxor_if` is deterministic — two results that meet its contract
/// for the same operands and condition are equal.
pub proof fn lemma_bitxor_if_deterministic<T: BitXorIf>(a: T, condition: bool, b: T, r1: T, r2: T)
    requires
        condition ==> r1 == a.bitxor_if_val(&b) && r2 == a.bitxor_if_val(&b),
        !condition ==> r1 == a && r2 == a,
    ensures
        r1 == r2,
{
}

/// Law: `not_if` is deterministic — two results that meet its contract for
/// the same operand and condition are equal.
pub proof fn lemma_not_if_deterministic<T: NotIf>(a: T, condition: bool, r1: T, r2: T)
    requires
        condition ==> r1 == a.not_if_val() && r2 == a.not_if_val(),
        !condition ==> r1 == a && r2 == a,
    ensures
        r1 == r2,
{
}

/// Law: `shl_if` is deterministic — two results that meet its contract for
/// the same operands and condition are equal.
pub proof fn lemma_shl_if_deterministic<T: ShlIf>(a: T, condition: bool, b: T, r1: T, r2: T)
    requires
        condition ==> r1 == a.shl_if_val(&b) && r2 == a.shl_if_val(&b),
        !condition ==> r1 == a && r2 == a,
    ensures
        r1 == r2,
{
}

/// Law: `shr_if` is deterministic — two results that meet its contract for
/// the same operands and condition are equal.
pub proof fn lemma_shr_if_deterministic<T: ShrIf>(a: T, condition: bool, b: T, r1: T, r2: T)
    requires
        condition ==> r1 == a.shr_if_val(&b) && r2 == a.shr_if_val(&b),
        !condition ==> r1 == a && r2 == a,
    ensures
        r1 == r2,
{
}

} // verus!
