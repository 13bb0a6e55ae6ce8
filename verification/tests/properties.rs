use condops::{AddIf, BitAndIf, BitOrIf, BitXorIf, DivIf, MulIf, NegIf, NotIf, RemIf, ShlIf, ShrIf, SubIf};

#[test]
fn operands_unchanged_binary() {
    let a: i32 = 7;
    let b: i32 = 3;
    let r = a.add_if(true, &b);
    assert_eq!(10, r);
    assert_eq!(7, a);
    assert_eq!(3, b);
    let r = a.sub_if(false, &b);
    assert_eq!(7, r);
    assert_eq!(7, a);
    assert_eq!(3, b);
}

#[test]
fn operand_unchanged_unary() {
    let a: i32 = 7;
    let r = a.neg_if(true);
    assert_eq!(-7, r);
    assert_eq!(7, a);
    let r = a.not_if(false);
    assert_eq!(7, r);
    assert_eq!(7, a);
}

#[test]
fn repeated_calls_agree() {
    let a: i32 = 42;
    let b: i32 = 9;
    assert_eq!(a.mul_if(true, &b), a.mul_if(true, &b));
    assert_eq!(a.mul_if(false, &b), a.mul_if(false, &b));
    assert_eq!(a.rem_if(true, &b), a.rem_if(true, &b));
    assert_eq!(a.neg_if(true), a.neg_if(true));
}

#[test]
fn false_branch_skips_the_operator() {
    // The operand is copied without the operator ever being applied, even
    // where the operator itself would be undefined for these operands.
    assert_eq!(5, 5.div_if(false, &0));
    assert_eq!(5, 5.rem_if(false, &0));
    assert_eq!(i32::MIN, i32::MIN.neg_if(false));
    assert_eq!(5, 5.shl_if(false, &40));
    assert_eq!(i32::MAX, i32::MAX.add_if(false, &1));
}

#[test]
fn div_if_truncates_toward_zero() {
    assert_eq!(-2, (-5).div_if(true, &2));
    assert_eq!(-2, 5.div_if(true, &-2));
    assert_eq!(2, (-5).div_if(true, &-2));
}

#[test]
fn rem_if_takes_the_dividend_sign() {
    assert_eq!(-1, (-5).rem_if(true, &2));
    assert_eq!(1, 5.rem_if(true, &-2));
    assert_eq!(-1, (-5).rem_if(true, &-2));
}

#[test]
fn shl_if_into_the_sign_bit() {
    assert_eq!(i32::MIN, 1.shl_if(true, &31));
}

#[test]
fn shr_if_is_arithmetic_on_signed() {
    assert_eq!(-3, (-5).shr_if(true, &1));
    assert_eq!(-1, (-5).shr_if(true, &31));
}

#[test]
fn add_if_u64() {
    assert_eq!(7, 5u64.add_if(true, &2));
    assert_eq!(5, 5u64.add_if(false, &2));
}

#[test]
fn sub_if_u64_to_zero() {
    assert_eq!(0, 5u64.sub_if(true, &5));
    assert_eq!(5, 5u64.sub_if(false, &5));
}

#[test]
fn mul_if_u64_at_the_edge() {
    assert_eq!(u64::MAX, (u64::MAX / 2).mul_if(true, &2).add_if(true, &1));
}

#[test]
fn div_rem_if_u64() {
    assert_eq!(2, 5u64.div_if(true, &2));
    assert_eq!(1, 5u64.rem_if(true, &2));
    assert_eq!(5, 5u64.div_if(false, &0));
}

#[test]
fn not_if_u64_is_the_unsigned_complement() {
    assert_eq!(u64::MAX - 5, 5u64.not_if(true));
    assert_eq!(5, 5u64.not_if(false));
}

#[test]
fn bit_ops_u64() {
    assert_eq!(0, 5u64.bitand_if(true, &2));
    assert_eq!(7, 5u64.bitor_if(true, &2));
    assert_eq!(7, 5u64.bitxor_if(true, &2));
}

#[test]
fn shifts_u64() {
    assert_eq!(20, 5u64.shl_if(true, &2));
    assert_eq!(1, 5u64.shr_if(true, &2));
    assert_eq!(1u64 << 63, 1u64.shl_if(true, &63));
}
