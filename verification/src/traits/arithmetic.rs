//! Arithmetic on distances that never understates a bound: a result that
//! does not fit is replaced by the nearest value that the type holds, so a
//! bound that overflows stays at the top of its type instead of wrapping.

use crate::error::{Error, ErrorVariant, Fallible};
use crate::traits::ordering::{answers, compare_ints, TotalOrd};
use vstd::prelude::*;

verus! {

/// `x`, or the nearer end of the range from `lowest` to `highest` where it
/// lies outside.
pub open spec fn clip(x: int, lowest: int, highest: int) -> int {
    if x < lowest {
        lowest
    } else if x > highest {
        highest
    } else {
        x
    }
}

/// Whether an outcome is the value `expected`, or, where there is none, a
/// failure of the kind `FailedCast`.
pub open spec fn converts<T>(out: Fallible<T>, expected: Option<T>) -> bool {
    match expected {
        Some(value) => out == Ok::<T, Error>(value),
        None => out matches Err(e) && e.variant == ErrorVariant::FailedCast,
    }
}

/// Types with a zero.
pub trait Zero: Sized {
    /// The zero of the type.
    open spec fn zero_spec() -> Self {
        arbitrary()
    }

    fn zero() -> (zero: Self)
        ensures
            zero == Self::zero_spec(),
    ;
}

/// Types with a one.
pub trait One: Sized {
    /// The one of the type.
    open spec fn one_spec() -> Self {
        arbitrary()
    }

    fn one() -> (one: Self)
        ensures
            one == Self::one_spec(),
    ;
}

/// Addition that rounds towards infinity.
pub trait InfAdd: Sized {
    /// The sum, where there is one. A type that does not say otherwise has
    /// none.
    open spec fn inf_add_spec(&self, v: &Self) -> Option<Self> {
        None
    }

    /// `self + v`, rounded up to a value of the type.
    fn inf_add(&self, v: &Self) -> (out: Fallible<Self>)
        ensures
            answers(out, self.inf_add_spec(v)),
    ;
}

/// Subtraction that rounds towards infinity.
pub trait InfSub: Sized {
    /// The difference, where there is one. A type that does not say
    /// otherwise has none.
    open spec fn inf_sub_spec(&self, v: &Self) -> Option<Self> {
        None
    }

    /// `self - v`, rounded up to a value of the type.
    fn inf_sub(&self, v: &Self) -> (out: Fallible<Self>)
        ensures
            answers(out, self.inf_sub_spec(v)),
    ;
}

/// Multiplication that rounds towards infinity.
pub trait InfMul: Sized {
    /// The product, where there is one. A type that does not say otherwise
    /// has none.
    open spec fn inf_mul_spec(&self, v: &Self) -> Option<Self> {
        None
    }

    /// `self * v`, rounded up to a value of the type.
    fn inf_mul(&self, v: &Self) -> (out: Fallible<Self>)
        ensures
            answers(out, self.inf_mul_spec(v)),
    ;
}

/// Division that rounds towards infinity.
pub trait InfDiv: Sized {
    /// The quotient, where there is one. A type that does not say
    /// otherwise has none.
    open spec fn inf_div_spec(&self, v: &Self) -> Option<Self> {
        None
    }

    /// `self / v`, rounded up to a value of the type. Fails with
    /// `FailedFunction` where there is no quotient.
    fn inf_div(&self, v: &Self) -> (out: Fallible<Self>)
        ensures
            answers(out, self.inf_div_spec(v)),
    ;
}

/// The least integer that is not less than `a / b`, for a divisor that
/// is positive.
pub open spec fn ceil_div(a: int, b: int) -> int {
    if a % b == 0 {
        a / b
    } else {
        a / b + 1
    }
}

/// The absolute value, where the type holds it.
pub trait AlertingAbs: Sized {
    /// The absolute value, where the type holds it. A type that does not
    /// say otherwise has none.
    open spec fn alerting_abs_spec(&self) -> Option<Self> {
        None
    }

    /// `|self|`. Fails with `FailedFunction` where the type does not hold
    /// it.
    fn alerting_abs(&self) -> (out: Fallible<Self>)
        ensures
            answers(out, self.alerting_abs_spec()),
    ;
}

/// Multiplication that is exact or fails.
pub trait AlertingMul: Sized {
    /// The product, where the type holds it. A type that does not say
    /// otherwise has none.
    open spec fn alerting_mul_spec(&self, v: &Self) -> Option<Self> {
        None
    }

    /// `self * v`. Fails with `FailedFunction` where the type does not
    /// hold the product.
    fn alerting_mul(&self, v: &Self) -> (out: Fallible<Self>)
        ensures
            answers(out, self.alerting_mul_spec(v)),
    ;
}

/// Conversion from `TI` that rounds towards infinity.
pub trait InfCast<TI>: Sized {
    /// What `v` converts to, where it converts. A type that does not say
    /// otherwise converts nothing.
    open spec fn inf_cast_spec(v: TI) -> Option<Self> {
        None
    }

    /// `v` as a value of this type, not less than `v`. Fails with
    /// `FailedCast` where the type holds no such value.
    fn inf_cast(v: TI) -> (out: Fallible<Self>)
        ensures
            converts(out, Self::inf_cast_spec(v)),
    ;
}

/// Conversion from `TI` that keeps the value.
pub trait ExactIntCast<TI>: Sized {
    /// What `v` converts to, where it converts. A type that does not say
    /// otherwise converts nothing.
    open spec fn exact_int_cast_spec(v: TI) -> Option<Self> {
        None
    }

    /// `v` as a value of this type. Fails with `FailedCast` where the type
    /// does not hold `v`.
    fn exact_int_cast(v: TI) -> (out: Fallible<Self>)
        ensures
            converts(out, Self::exact_int_cast_spec(v)),
    ;
}

/// Types that can scale a distance of type `TI`: the factor of a constant
/// map from `TI` to this type.
pub trait DistanceConstant<TI>: InfCast<TI> + InfMul + TotalOrd {
}

impl<TI, TO: InfCast<TI> + InfMul + TotalOrd> DistanceConstant<TI> for TO {
}

/// The integer types of the library. Each value stands for the integer it
/// holds, and arithmetic on the type is arithmetic on the integers, cut off
/// at the ends of the type.
pub trait Integer: TotalOrd + Zero + One + InfAdd + InfSub + InfMul + AlertingAbs + AlertingMul + Copy {
    /// The integer that a value stands for.
    spec fn value(self) -> int;

    /// The least integer that the type holds.
    spec fn lowest() -> int;

    /// The greatest integer that the type holds.
    spec fn highest() -> int;

    /// What the operations of the type compute, in terms of the integers.
    proof fn model(a: Self, b: Self)
        ensures
            Self::lowest() <= 0 < Self::highest(),
            Self::lowest() <= a.value() <= Self::highest(),
            a.value() == b.value() ==> a == b,
            Self::zero_spec().value() == 0,
            Self::one_spec().value() == 1,
            a.compare(&b) == Some(compare_ints(a.value(), b.value())),
            a.inf_add_spec(&b) matches Some(sum) && sum.value() == clip(
                a.value() + b.value(),
                Self::lowest(),
                Self::highest(),
            ),
            a.inf_sub_spec(&b) matches Some(difference) && difference.value() == clip(
                a.value() - b.value(),
                Self::lowest(),
                Self::highest(),
            ),
            a.inf_mul_spec(&b) matches Some(product) && product.value() == clip(
                a.value() * b.value(),
                Self::lowest(),
                Self::highest(),
            ),
            match a.alerting_mul_spec(&b) {
                Some(product) => product.value() == a.value() * b.value(),
                None => !(Self::lowest() <= a.value() * b.value() <= Self::highest()),
            },
            match a.alerting_abs_spec() {
                Some(abs) => abs.value() == if a.value() < 0 {
                    -a.value()
                } else {
                    a.value()
                },
                None => a.value() < 0 && -a.value() > Self::highest(),
            },
    ;
}

/// Pairs of integer types of the library with a conversion between them.
pub trait IntegerCast<TI: Integer>: Integer + InfCast<TI> {
    /// A value converts where the target holds its integer, and then stands
    /// for the same integer.
    proof fn cast_model(v: TI)
        ensures
            Self::lowest() <= v.value() <= Self::highest() ==> (Self::inf_cast_spec(v) matches Some(
                c,
            ) && c.value() == v.value()),
            !(Self::lowest() <= v.value() <= Self::highest()) ==> Self::inf_cast_spec(v) is None,
    ;
}

} // verus!
