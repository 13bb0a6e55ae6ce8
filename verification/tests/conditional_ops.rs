use condops::{AddIf, BitAndIf, BitOrIf, BitXorIf, DivIf, MulIf, NegIf, NotIf, RemIf, ShlIf, ShrIf, SubIf};

#[test]
fn sub_if_i32() {
    assert_eq!(3, 5.sub_if(true, &2));
    assert_eq!(5, 5.sub_if(false, &2));
}

#[test]
fn add_if_i32() {
    assert_eq!(7, 5.add_if(true, &2));
    assert_eq!(5, 5.add_if(false, &2));
}

#[test]
fn div_if_i32() {
    assert_eq!(2, 5.div_if(true, &2));
    assert_eq!(5, 5.div_if(false, &2));
}

#[test]
fn mul_if_i32() {
    assert_eq!(10, 5.mul_if(true, &2));
    assert_eq!(5, 5.mul_if(false, &2));
}

#[test]
fn neg_if_i32() {
    assert_eq!(-5, 5.neg_if(true));
    assert_eq!(5, 5.neg_if(false));
}

#[test]
fn rem_if_i32() {
    assert_eq!(1, 5.rem_if(true, &2));
    assert_eq!(5, 5.rem_if(false, &2));
}

#[test]
fn bitand_if_i32() {
    assert_eq!(0, 5.bitand_if(true, &2));
    assert_eq!(5, 5.bitand_if(false, &2));
}

#[test]
fn bitor_if_i32() {
    assert_eq!(7, 5.bitor_if(true, &2));
    assert_eq!(5, 5.bitor_if(false, &2));
}

#[test]
fn bitxor_if_i32() {
    assert_eq!(7, 5.bitxor_if(true, &2));
    assert_eq!(5, 5.bitxor_if(false, &2));
}

#[test]
fn not_if_i32() {
    assert_eq!(-6, 5.not_if(true));
    assert_eq!(5, 5.not_if(false));
}

#[test]
fn shl_if_i32() {
    assert_eq!(20, 5.shl_if(true, &2));
    assert_eq!(5, 5.shl_if(false, &2));
}

#[test]
fn shr_if_i32() {
    assert_eq!(1, 5.shr_if(true, &2));
    assert_eq!(5, 5.shr_if(false, &2));
}
