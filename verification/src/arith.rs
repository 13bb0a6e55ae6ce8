//! Conditional variants of the arithmetic operators: addition, subtraction,
//! multiplication, division, remainder and negation.
//!
//! Each trait adds one method, `a.<op>_if(condition, &b)` (binary) or
//! `a.<op>_if(condition)` (unary), that applies the underlying operator when
//! `condition` is true and returns an unchanged copy of `a` when it is false.
//! The wrapper adds no failure mode of its own: the precondition of each
//! method is exactly the underlying operator's own precondition, and only
//! when the condition is true.
//!
//! Division and remainder on signed operands truncate toward zero, as the
//! built-in operators do; the spec functions below state that in terms of
//! Euclidean division on `int`.

use vstd::prelude::*;

verus! {

/// Conditional addition: `a.add_if(c, &b)` is `a + b` when `c` holds and a
/// copy of `a` otherwise.
pub trait AddIf: Sized {
    /// When the underlying addition is defined for these operands.
    spec fn add_if_ok(&self, other: &Self) -> bool;

    /// The value the underlying addition produces.
    spec fn add_if_val(&self, other: &Self) -> Self;

    fn add_if(&self, condition: bool, other: &Self) -> (r: Self)
        requires
            condition ==> self.add_if_ok(other),
        ensures
            condition ==> r == self.add_if_val(other),
            !condition ==> r == *self,
    ;
}

/// Conditional subtraction: `a.sub_if(c, &b)` is `a - b` when `c` holds and
/// a copy of `a` otherwise.
pub trait SubIf: Sized {
    /// When the underlying subtraction is defined for these operands.
    spec fn sub_if_ok(&self, other: &Self) -> bool;

    /// The value the underlying subtraction produces.
    spec fn sub_if_val(&self, other: &Self) -> Self;

    fn sub_if(&self, condition: bool, other: &Self) -> (r: Self)
        requires
            condition ==> self.sub_if_ok(other),
        ensures
            condition ==> r == self.sub_if_val(other),
            !condition ==> r == *self,
    ;
}

/// Conditional multiplication: `a.mul_if(c, &b)` is `a * b` when `c` holds
/// and a copy of `a` otherwise.
pub trait MulIf: Sized {
    /// When the underlying multiplication is defined for these operands.
    spec fn mul_if_ok(&self, other: &Self) -> bool;

    /// The value the underlying multiplication produces.
    spec fn mul_if_val(&self, other: &Self) -> Self;

    fn mul_if(&self, condition: bool, other: &Self) -> (r: Self)
        requires
            condition ==> self.mul_if_ok(other),
        ensures
            condition ==> r == self.mul_if_val(other),
            !condition ==> r == *self,
    ;
}

/// Conditional division: `a.div_if(c, &b)` is `a / b` when `c` holds and a
/// copy of `a` otherwise.
pub trait DivIf: Sized {
    /// When the underlying division is defined for these operands.
    spec fn div_if_ok(&self, other: &Self) -> bool;

    /// The value the underlying division produces.
    spec fn div_if_val(&self, other: &Self) -> Self;

    fn div_if(&self, condition: bool, other: &Self) -> (r: Self)
        requires
            condition ==> self.div_if_ok(other),
        ensures
            condition ==> r == self.div_if_val(other),
            !condition ==> r == *self,
    ;
}

/// Conditional remainder: `a.rem_if(c, &b)` is `a % b` when `c` holds and a
/// copy of `a` otherwise.
pub trait RemIf: Sized {
    /// When the underlying remainder is defined for these operands.
    spec fn rem_if_ok(&self, other: &Self) -> bool;

    /// The value the underlying remainder produces.
    spec fn rem_if_val(&self, other: &Self) -> Self;

    fn rem_if(&self, condition: bool, other: &Self) -> (r: Self)
        requires
            condition ==> self.rem_if_ok(other),
        ensures
            condition ==> r == self.rem_if_val(other),
            !condition ==> r == *self,
    ;
}

/// Conditional negation: `a.neg_if(c)` is `-a` when `c` holds and a copy of
/// `a` otherwise.
pub trait NegIf: Sized {
    /// When the underlying negation is defined for this operand.
    spec fn neg_if_ok(&self) -> bool;

    /// The value the underlying negation produces.
    spec fn neg_if_val(&self) -> Self;

    fn neg_if(&self, condition: bool) -> (r: Self)
        requires
            condition ==> self.neg_if_ok(),
        ensures
            condition ==> r == self.neg_if_val(),
            !condition ==> r == *self,
    ;
}

impl AddIf for i32 {
    open spec fn add_if_ok(&self, other: &i32) -> bool {
        i32::MIN <= *self + *other <= i32::MAX
    }

    open spec fn add_if_val(&self, other: &i32) -> i32 {
        (*self + *other) as i32
    }

    fn add_if(&self, condition: bool, other: &i32) -> (r: i32)
        ensures
            r == (if condition {
                (*self + *other) as i32
            } else {
                *self
            }),
    {
        if condition {
            *self + *other
        } else {
            *self
        }
    }
}

impl AddIf for u64 {
    open spec fn add_if_ok(&self, other: &u64) -> bool {
        *self + *other <= u64::MAX
    }

    open spec fn add_if_val(&self, other: &u64) -> u64 {
        (*self + *other) as u64
    }

    fn add_if(&self, condition: bool, other: &u64) -> (r: u64)
        ensures
            r == (if condition {
                (*self + *other) as u64
            } else {
                *self
            }),
    {
        if condition {
            *self + *other
        } else {
            *self
        }
    }
}

impl SubIf for i32 {
    open spec fn sub_if_ok(&self, other: &i32) -> bool {
        i32::MIN <= *self - *other <= i32::MAX
    }

    open spec fn sub_if_val(&self, other: &i32) -> i32 {
        (*self - *other) as i32
    }

    fn sub_if(&self, condition: bool, other: &i32) -> (r: i32)
        ensures
            r == (if condition {
                (*self - *other) as i32
            } else {
                *self
            }),
    {
        if condition {
            *self - *other
        } else {
            *self
        }
    }
}

impl SubIf for u64 {
    open spec fn sub_if_ok(&self, other: &u64) -> bool {
        *other <= *self
    }

    open spec fn sub_if_val(&self, other: &u64) -> u64 {
        (*self - *other) as u64
    }

    fn sub_if(&self, condition: bool, other: &u64) -> (r: u64)
        ensures
            r == (if condition {
                (*self - *other) as u64
            } else {
                *self
            }),
    {
        if condition {
            *self - *other
        } else {
            *self
        }
    }
}

impl MulIf for i32 {
    open spec fn mul_if_ok(&self, other: &i32) -> bool {
        i32::MIN <= *self * *other <= i32::MAX
    }

    open spec fn mul_if_val(&self, other: &i32) -> i32 {
        (*self * *other) as i32
    }

    fn mul_if(&self, condition: bool, other: &i32) -> (r: i32)
        ensures
            r == (if condition {
                (*self * *other) as i32
            } else {
                *self
            }),
    {
        if condition {
            *self * *other
        } else {
            *self
        }
    }
}

impl MulIf for u64 {
    open spec fn mul_if_ok(&self, other: &u64) -> bool {
        *self * *other <= u64::MAX
    }

    open spec fn mul_if_val(&self, other: &u64) -> u64 {
        (*self * *other) as u64
    }

    fn mul_if(&self, condition: bool, other: &u64) -> (r: u64)
        ensures
            r == (if condition {
                (*self * *other) as u64
            } else {
                *self
            }),
    {
        if condition {
            *self * *other
        } else {
            *self
        }
    }
}

impl DivIf for i32 {
    open spec fn div_if_ok(&self, other: &i32) -> bool {
        *other != 0 && !(*self == i32::MIN && *other == -1)
    }

    /// Truncating division, stated through Euclidean `/` on `int`: for a
    /// non-negative dividend the two agree; for a negative dividend the
    /// quotient is the negated quotient of the negated dividend.
    open spec fn div_if_val(&self, other: &i32) -> i32 {
        if *self >= 0 {
            (*self / *other) as i32
        } else {
            (-((-*self) / (*other as int))) as i32
        }
    }

    fn div_if(&self, condition: bool, other: &i32) -> (r: i32)
        ensures
            r == (if condition {
                self.div_if_val(other)
            } else {
                *self
            }),
    {
        if condition {
            *self / *other
        } else {
            *self
        }
    }
}

impl DivIf for u64 {
    open spec fn div_if_ok(&self, other: &u64) -> bool {
        *other != 0
    }

    open spec fn div_if_val(&self, other: &u64) -> u64 {
        *self / *other
    }

    fn div_if(&self, condition: bool, other: &u64) -> (r: u64)
        ensures
            r == (if condition {
                *self / *other
            } else {
                *self
            }),
    {
        if condition {
            *self / *other
        } else {
            *self
        }
    }
}

impl RemIf for i32 {
    open spec fn rem_if_ok(&self, other: &i32) -> bool {
        *other != 0 && !(*self == i32::MIN && *other == -1)
    }

    /// Truncating remainder, stated through Euclidean `%` on `int`: the
    /// remainder takes the sign of the dividend.
    open spec fn rem_if_val(&self, other: &i32) -> i32 {
        if *self >= 0 {
            (*self % *other) as i32
        } else {
            (-((-*self) % (*other as int))) as i32
        }
    }

    fn rem_if(&self, condition: bool, other: &i32) -> (r: i32)
        ensures
            r == (if condition {
                self.rem_if_val(other)
            } else {
                *self
            }),
    {
        if condition {
            *self % *other
        } else {
            *self
        }
    }
}

impl RemIf for u64 {
    open spec fn rem_if_ok(&self, other: &u64) -> bool {
        *other != 0
    }

    open spec fn rem_if_val(&self, other: &u64) -> u64 {
        *self % *other
    }

    fn rem_if(&self, condition: bool, other: &u64) -> (r: u64)
        ensures
            r == (if condition {
                *self % *other
            } else {
                *self
            }),
    {
        if condition {
            *self % *other
        } else {
            *self
        }
    }
}

impl NegIf for i32 {
    open spec fn neg_if_ok(&self) -> bool {
        *self != i32::MIN
    }

    open spec fn neg_if_val(&self) -> i32 {
        (-*self) as i32
    }

    fn neg_if(&self, condition: bool) -> (r: i32)
        ensures
            r == (if condition {
                (-*self) as i32
            } else {
                *self
            }),
    {
        if condition {
            -*self
        } else {
            *self
        }
    }
}

} // verus!
