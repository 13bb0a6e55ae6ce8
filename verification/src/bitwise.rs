//! Conditional variants of the bitwise operators: and, or, xor, complement
//! and the two shifts.
//!
//! Each trait adds one method, `a.<op>_if(condition, &b)` (binary) or
//! `a.<op>_if(condition)` (unary), that applies the underlying operator when
//! `condition` is true and returns an unchanged copy of `a` when it is false.
//! The bitwise connectives are total; the shifts require the shift amount to
//! be a valid bit position of the operand's type, exactly the built-in
//! operators' own precondition. On a signed operand the complement is the
//! two's-complement bitwise one and the right shift is arithmetic, as with
//! the built-in operators.

use vstd::prelude::*;

verus! {

/// Conditional bitwise and: `a.bitand_if(c, &b)` is `a & b` when `c` holds
/// and a copy of `a` otherwise.
pub trait BitAndIf: Sized {
    /// The value the underlying bitwise and produces.
    spec fn bitand_if_val(&self, other: &Self) -> Self;

    fn bitand_if(&self, condition: bool, other: &Self) -> (r: Self)
        ensures
            condition ==> r == self.bitand_if_val(other),
            !condition ==> r == *self,
    ;
}

/// Conditional bitwise or: `a.bitor_if(c, &b)` is `a | b` when `c` holds and
/// a copy of `a` otherwise.
pub trait BitOrIf: Sized {
    /// The value the underlying bitwise or produces.
    spec fn bitor_if_val(&self, other: &Self) -> Self;

    fn bitor_if(&self, condition: bool, other: &Self) -> (r: Self)
        ensures
            condition ==> r == self.bitor_if_val(other),
            !condition ==> r == *self,
    ;
}

/// Conditional bitwise xor: `a.bitxor_if(c, &b)` is `a ^ b` when `c` holds
/// and a copy of `a` otherwise.
pub trait BitXorIf: Sized {
    /// The value the underlying bitwise xor produces.
    spec fn bitxor_if_val(&self, other: &Self) -> Self;

    fn bitxor_if(&self, condition: bool, other: &Self) -> (r: Self)
        ensures
            condition ==> r == self.bitxor_if_val(other),
            !condition ==> r == *self,
    ;
}

/// Conditional bitwise complement: `a.not_if(c)` is `!a` when `c` holds and
/// a copy of `a` otherwise.
pub trait NotIf: Sized {
    /// The value the underlying complement produces.
    spec fn not_if_val(&self) -> Self;

    fn not_if(&self, condition: bool) -> (r: Self)
        ensures
            condition ==> r == self.not_if_val(),
            !condition ==> r == *self,
    ;
}

/// Conditional left shift: `a.shl_if(c, &b)` is `a << b` when `c` holds and
/// a copy of `a` otherwise.
pub trait ShlIf: Sized {
    /// When the underlying left shift is defined for these operands.
    spec fn shl_if_ok(&self, other: &Self) -> bool;

    /// The value the underlying left shift produces.
    spec fn shl_if_val(&self, other: &Self) -> Self;

    fn shl_if(&self, condition: bool, other: &Self) -> (r: Self)
        requires
            condition ==> self.shl_if_ok(other),
        ensures
            condition ==> r == self.shl_if_val(other),
            !condition ==> r == *self,
    ;
}

/// Conditional right shift: `a.shr_if(c, &b)` is `a >> b` when `c` holds and
/// a copy of `a` otherwise.
pub trait ShrIf: Sized {
    /// When the underlying right shift is defined for these operands.
    spec fn shr_if_ok(&self, other: &Self) -> bool;

    /// The value the underlying right shift produces.
    spec fn shr_if_val(&self, other: &Self) -> Self;

    fn shr_if(&self, condition: bool, other: &Self) -> (r: Self)
        requires
            condition ==> self.shr_if_ok(other),
        ensures
            condition ==> r == self.shr_if_val(other),
            !condition ==> r == *self,
    ;
}

impl BitAndIf for i32 {
    open spec fn bitand_if_val(&self, other: &i32) -> i32 {
        *self & *other
    }

    fn bitand_if(&self, condition: bool, other: &i32) -> (r: i32)
        ensures
            r == (if condition {
                *self & *other
            } else {
                *self
            }),
    {
        if condition {
            *self & *other
        } else {
            *self
        }
    }
}

impl BitAndIf for u64 {
    open spec fn bitand_if_val(&self, other: &u64) -> u64 {
        *self & *other
    }

    fn bitand_if(&self, condition: bool, other: &u64) -> (r: u64)
        ensures
            r == (if condition {
                *self & *other
            } else {
                *self
            }),
    {
        if condition {
            *self & *other
        } else {
            *self
        }
    }
}

impl BitOrIf for i32 {
    open spec fn bitor_if_val(&self, other: &i32) -> i32 {
        *self | *other
    }

    fn bitor_if(&self, condition: bool, other: &i32) -> (r: i32)
        ensures
            r == (if condition {
                *self | *other
            } else {
                *self
            }),
    {
        if condition {
            *self | *other
        } else {
            *self
        }
    }
}

impl BitOrIf for u64 {
    open spec fn bitor_if_val(&self, other: &u64) -> u64 {
        *self | *other
    }

    fn bitor_if(&self, condition: bool, other: &u64) -> (r: u64)
        ensures
            r == (if condition {
                *self | *other
            } else {
                *self
            }),
    {
        if condition {
            *self | *other
        } else {
            *self
        }
    }
}

impl BitXorIf for i32 {
    open spec fn bitxor_if_val(&self, other: &i32) -> i32 {
        *self ^ *other
    }

    fn bitxor_if(&self, condition: bool, other: &i32) -> (r: i32)
        ensures
            r == (if condition {
                *self ^ *other
            } else {
                *self
            }),
    {
        if condition {
            *self ^ *other
        } else {
            *self
        }
    }
}

impl BitXorIf for u64 {
    open spec fn bitxor_if_val(&self, other: &u64) -> u64 {
        *self ^ *other
    }

    fn bitxor_if(&self, condition: bool, other: &u64) -> (r: u64)
        ensures
            r == (if condition {
                *self ^ *other
            } else {
                *self
            }),
    {
        if condition {
            *self ^ *other
        } else {
            *self
        }
    }
}

impl NotIf for i32 {
    open spec fn not_if_val(&self) -> i32 {
        !*self
    }

    fn not_if(&self, condition: bool) -> (r: i32)
        ensures
            r == (if condition {
                !*self
            } else {
                *self
            }),
    {
        if condition {
            !*self
        } else {
            *self
        }
    }
}

impl NotIf for u64 {
    open spec fn not_if_val(&self) -> u64 {
        !*self
    }

    fn not_if(&self, condition: bool) -> (r: u64)
        ensures
            r == (if condition {
                !*self
            } else {
                *self
            }),
    {
        if condition {
            !*self
        } else {
            *self
        }
    }
}

impl ShlIf for i32 {
    open spec fn shl_if_ok(&self, other: &i32) -> bool {
        0 <= *other < 32
    }

    open spec fn shl_if_val(&self, other: &i32) -> i32 {
        *self << *other
    }

    fn shl_if(&self, condition: bool, other: &i32) -> (r: i32)
        ensures
            r == (if condition {
                *self << *other
            } else {
                *self
            }),
    {
        if condition {
            *self << *other
        } else {
            *self
        }
    }
}

impl ShlIf for u64 {
    open spec fn shl_if_ok(&self, other: &u64) -> bool {
        *other < 64
    }

    open spec fn shl_if_val(&self, other: &u64) -> u64 {
        *self << *other
    }

    fn shl_if(&self, condition: bool, other: &u64) -> (r: u64)
        ensures
            r == (if condition {
                *self << *other
            } else {
                *self
            }),
    {
        if condition {
            *self << *other
        } else {
            *self
        }
    }
}

impl ShrIf for i32 {
    open spec fn shr_if_ok(&self, other: &i32) -> bool {
        0 <= *other < 32
    }

    open spec fn shr_if_val(&self, other: &i32) -> i32 {
        *self >> *other
    }

    fn shr_if(&self, condition: bool, other: &i32) -> (r: i32)
        ensures
            r == (if condition {
                *self >> *other
            } else {
                *self
            }),
    {
        if condition {
            *self >> *other
        } else {
            *self
        }
    }
}

impl ShrIf for u64 {
    open spec fn shr_if_ok(&self, other: &u64) -> bool {
        *other < 64
    }

    open spec fn shr_if_val(&self, other: &u64) -> u64 {
        *self >> *other
    }

    fn shr_if(&self, condition: bool, other: &u64) -> (r: u64)
        ensures
            r == (if condition {
                *self >> *other
            } else {
                *self
            }),
    {
        if condition {
            *self >> *other
        } else {
            *self
        }
    }
}

} // verus!
