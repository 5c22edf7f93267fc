//! The integer types that the library gives arithmetic to.

use crate::error::{Error, ErrorVariant, Fallible};
use crate::traits::arithmetic::{
    ceil_div, clip, AlertingAbs, AlertingMul, ExactIntCast, InfAdd, InfCast, InfDiv, InfMul, InfSub,
    Integer,
    IntegerCast, One, Zero,
};
use vstd::prelude::*;

verus! {

impl Zero for i32 {
    open spec fn zero_spec() -> Self {
        0
    }

    fn zero() -> (zero: Self) {
        0
    }
}

impl One for i32 {
    open spec fn one_spec() -> Self {
        1
    }

    fn one() -> (one: Self) {
        1
    }
}

impl InfAdd for i32 {
    open spec fn inf_add_spec(&self, v: &Self) -> Option<Self> {
        Some(clip(*self + *v, i32::MIN as int, i32::MAX as int) as i32)
    }

    fn inf_add(&self, v: &Self) -> (out: Fallible<Self>) {
        let wide: i64 = *self as i64 + *v as i64;
        if wide < i32::MIN as i64 {
            Ok(i32::MIN)
        } else if wide > i32::MAX as i64 {
            Ok(i32::MAX)
        } else {
            Ok(wide as i32)
        }
    }
}

impl InfSub for i32 {
    open spec fn inf_sub_spec(&self, v: &Self) -> Option<Self> {
        Some(clip(*self - *v, i32::MIN as int, i32::MAX as int) as i32)
    }

    fn inf_sub(&self, v: &Self) -> (out: Fallible<Self>) {
        let wide: i64 = *self as i64 - *v as i64;
        if wide < i32::MIN as i64 {
            Ok(i32::MIN)
        } else if wide > i32::MAX as i64 {
            Ok(i32::MAX)
        } else {
            Ok(wide as i32)
        }
    }
}

impl InfMul for i32 {
    open spec fn inf_mul_spec(&self, v: &Self) -> Option<Self> {
        Some(clip(*self * *v, i32::MIN as int, i32::MAX as int) as i32)
    }

    fn inf_mul(&self, v: &Self) -> (out: Fallible<Self>) {
        assert(-0x8000_0000 * 0x8000_0000 <= (*self as int) * (*v as int) <= 0x8000_0000 * 0x8000_0000) by (nonlinear_arith)
            requires
                -0x8000_0000 <= *self as int <= 0x7fff_ffff,
                -0x8000_0000 <= *v as int <= 0x7fff_ffff,
        ;
        assert(i64::MIN <= -0x8000_0000 * 0x8000_0000 && 0x8000_0000 * 0x8000_0000 <= i64::MAX) by (nonlinear_arith);
        let wide: i64 = (*self as i64) * (*v as i64);
        if wide < i32::MIN as i64 {
            Ok(i32::MIN)
        } else if wide > i32::MAX as i64 {
            Ok(i32::MAX)
        } else {
            Ok(wide as i32)
        }
    }
}

impl AlertingAbs for i32 {
    open spec fn alerting_abs_spec(&self) -> Option<Self> {
        if *self == i32::MIN {
            None
        } else if *self < 0 {
            Some((-*self) as i32)
        } else {
            Some(*self)
        }
    }

    fn alerting_abs(&self) -> (out: Fallible<Self>) {
        if *self == i32::MIN {
            Err(Error::new(ErrorVariant::FailedFunction, "the absolute value does not fit"))
        } else if *self < 0 {
            Ok(-*self)
        } else {
            Ok(*self)
        }
    }
}

impl AlertingMul for i32 {
    open spec fn alerting_mul_spec(&self, v: &Self) -> Option<Self> {
        if i32::MIN <= *self * *v <= i32::MAX {
            Some((*self * *v) as i32)
        } else {
            None
        }
    }

    fn alerting_mul(&self, v: &Self) -> (out: Fallible<Self>) {
        assert(-0x8000_0000 * 0x8000_0000 <= (*self as int) * (*v as int) <= 0x8000_0000 * 0x8000_0000) by (nonlinear_arith)
            requires
                -0x8000_0000 <= *self as int <= 0x7fff_ffff,
                -0x8000_0000 <= *v as int <= 0x7fff_ffff,
        ;
        assert(i64::MIN <= -0x8000_0000 * 0x8000_0000 && 0x8000_0000 * 0x8000_0000 <= i64::MAX) by (nonlinear_arith);
        let wide: i64 = (*self as i64) * (*v as i64);
        if wide < i32::MIN as i64 || wide > i32::MAX as i64 {
            Err(Error::new(ErrorVariant::FailedFunction, "the product does not fit"))
        } else {
            Ok(wide as i32)
        }
    }
}

/// The quotient of a number that is not negative by one that is
/// positive, rounded up. There is none otherwise.
impl InfDiv for i32 {
    open spec fn inf_div_spec(&self, v: &Self) -> Option<Self> {
        if *v <= 0 || *self < 0 {
            None
        } else {
            Some(ceil_div(*self as int, *v as int) as i32)
        }
    }

    fn inf_div(&self, v: &Self) -> (out: Fallible<Self>) {
        if *v <= 0 || *self < 0 {
            return Err(
                Error::new(
                    ErrorVariant::FailedFunction,
                    "division needs a dividend that is not negative and a positive divisor",
                ),
            );
        }
        let quotient = *self / *v;
        if *self % *v == 0 {
            Ok(quotient)
        } else {
            assert(quotient < *self) by (nonlinear_arith)
                requires
                    quotient == *self as int / *v as int,
                    (*self as int) % (*v as int) != 0,
                    0 <= *self,
                    0 < *v,
            ;
            Ok(quotient + 1)
        }
    }
}

impl Integer for i32 {
    open spec fn value(self) -> int {
        self as int
    }

    open spec fn lowest() -> int {
        i32::MIN as int
    }

    open spec fn highest() -> int {
        i32::MAX as int
    }

    proof fn model(a: Self, b: Self) {
    }
}

impl ExactIntCast<usize> for i32 {
    open spec fn exact_int_cast_spec(v: usize) -> Option<Self> {
        if v <= i32::MAX {
            Some(v as i32)
        } else {
            None
        }
    }

    fn exact_int_cast(v: usize) -> (out: Fallible<Self>) {
        if v as u128 <= i32::MAX as u128 {
            Ok(v as i32)
        } else {
            Err(Error::new(ErrorVariant::FailedCast, "the size is greater than the type holds"))
        }
    }
}

impl Zero for i64 {
    open spec fn zero_spec() -> Self {
        0
    }

    fn zero() -> (zero: Self) {
        0
    }
}

impl One for i64 {
    open spec fn one_spec() -> Self {
        1
    }

    fn one() -> (one: Self) {
        1
    }
}

impl InfAdd for i64 {
    open spec fn inf_add_spec(&self, v: &Self) -> Option<Self> {
        Some(clip(*self + *v, i64::MIN as int, i64::MAX as int) as i64)
    }

    fn inf_add(&self, v: &Self) -> (out: Fallible<Self>) {
        let wide: i128 = *self as i128 + *v as i128;
        if wide < i64::MIN as i128 {
            Ok(i64::MIN)
        } else if wide > i64::MAX as i128 {
            Ok(i64::MAX)
        } else {
            Ok(wide as i64)
        }
    }
}

impl InfSub for i64 {
    open spec fn inf_sub_spec(&self, v: &Self) -> Option<Self> {
        Some(clip(*self - *v, i64::MIN as int, i64::MAX as int) as i64)
    }

    fn inf_sub(&self, v: &Self) -> (out: Fallible<Self>) {
        let wide: i128 = *self as i128 - *v as i128;
        if wide < i64::MIN as i128 {
            Ok(i64::MIN)
        } else if wide > i64::MAX as i128 {
            Ok(i64::MAX)
        } else {
            Ok(wide as i64)
        }
    }
}

impl InfMul for i64 {
    open spec fn inf_mul_spec(&self, v: &Self) -> Option<Self> {
        Some(clip(*self * *v, i64::MIN as int, i64::MAX as int) as i64)
    }

    fn inf_mul(&self, v: &Self) -> (out: Fallible<Self>) {
        assert(-0x8000_0000_0000_0000 * 0x8000_0000_0000_0000 <= (*self as int) * (*v as int) <= 0x8000_0000_0000_0000 * 0x8000_0000_0000_0000) by (nonlinear_arith)
            requires
                -0x8000_0000_0000_0000 <= *self as int <= 0x7fff_ffff_ffff_ffff,
                -0x8000_0000_0000_0000 <= *v as int <= 0x7fff_ffff_ffff_ffff,
        ;
        assert(i128::MIN <= -0x8000_0000_0000_0000 * 0x8000_0000_0000_0000 && 0x8000_0000_0000_0000 * 0x8000_0000_0000_0000 <= i128::MAX) by (nonlinear_arith);
        let wide: i128 = (*self as i128) * (*v as i128);
        if wide < i64::MIN as i128 {
            Ok(i64::MIN)
        } else if wide > i64::MAX as i128 {
            Ok(i64::MAX)
        } else {
            Ok(wide as i64)
        }
    }
}

impl AlertingAbs for i64 {
    open spec fn alerting_abs_spec(&self) -> Option<Self> {
        if *self == i64::MIN {
            None
        } else if *self < 0 {
            Some((-*self) as i64)
        } else {
            Some(*self)
        }
    }

    fn alerting_abs(&self) -> (out: Fallible<Self>) {
        if *self == i64::MIN {
            Err(Error::new(ErrorVariant::FailedFunction, "the absolute value does not fit"))
        } else if *self < 0 {
            Ok(-*self)
        } else {
            Ok(*self)
        }
    }
}

impl AlertingMul for i64 {
    open spec fn alerting_mul_spec(&self, v: &Self) -> Option<Self> {
        if i64::MIN <= *self * *v <= i64::MAX {
            Some((*self * *v) as i64)
        } else {
            None
        }
    }

    fn alerting_mul(&self, v: &Self) -> (out: Fallible<Self>) {
        assert(-0x8000_0000_0000_0000 * 0x8000_0000_0000_0000 <= (*self as int) * (*v as int) <= 0x8000_0000_0000_0000 * 0x8000_0000_0000_0000) by (nonlinear_arith)
            requires
                -0x8000_0000_0000_0000 <= *self as int <= 0x7fff_ffff_ffff_ffff,
                -0x8000_0000_0000_0000 <= *v as int <= 0x7fff_ffff_ffff_ffff,
        ;
        assert(i128::MIN <= -0x8000_0000_0000_0000 * 0x8000_0000_0000_0000 && 0x8000_0000_0000_0000 * 0x8000_0000_0000_0000 <= i128::MAX) by (nonlinear_arith);
        let wide: i128 = (*self as i128) * (*v as i128);
        if wide < i64::MIN as i128 || wide > i64::MAX as i128 {
            Err(Error::new(ErrorVariant::FailedFunction, "the product does not fit"))
        } else {
            Ok(wide as i64)
        }
    }
}

/// The quotient of a number that is not negative by one that is
/// positive, rounded up. There is none otherwise.
impl InfDiv for i64 {
    open spec fn inf_div_spec(&self, v: &Self) -> Option<Self> {
        if *v <= 0 || *self < 0 {
            None
        } else {
            Some(ceil_div(*self as int, *v as int) as i64)
        }
    }

    fn inf_div(&self, v: &Self) -> (out: Fallible<Self>) {
        if *v <= 0 || *self < 0 {
            return Err(
                Error::new(
                    ErrorVariant::FailedFunction,
                    "division needs a dividend that is not negative and a positive divisor",
                ),
            );
        }
        let quotient = *self / *v;
        if *self % *v == 0 {
            Ok(quotient)
        } else {
            assert(quotient < *self) by (nonlinear_arith)
                requires
                    quotient == *self as int / *v as int,
                    (*self as int) % (*v as int) != 0,
                    0 <= *self,
                    0 < *v,
            ;
            Ok(quotient + 1)
        }
    }
}

impl Integer for i64 {
    open spec fn value(self) -> int {
        self as int
    }

    open spec fn lowest() -> int {
        i64::MIN as int
    }

    open spec fn highest() -> int {
        i64::MAX as int
    }

    proof fn model(a: Self, b: Self) {
    }
}

impl ExactIntCast<usize> for i64 {
    open spec fn exact_int_cast_spec(v: usize) -> Option<Self> {
        if v <= i64::MAX {
            Some(v as i64)
        } else {
            None
        }
    }

    fn exact_int_cast(v: usize) -> (out: Fallible<Self>) {
        if v as u128 <= i64::MAX as u128 {
            Ok(v as i64)
        } else {
            Err(Error::new(ErrorVariant::FailedCast, "the size is greater than the type holds"))
        }
    }
}

impl Zero for u8 {
    open spec fn zero_spec() -> Self {
        0
    }

    fn zero() -> (zero: Self) {
        0
    }
}

impl One for u8 {
    open spec fn one_spec() -> Self {
        1
    }

    fn one() -> (one: Self) {
        1
    }
}

impl InfAdd for u8 {
    open spec fn inf_add_spec(&self, v: &Self) -> Option<Self> {
        Some(clip(*self + *v, u8::MIN as int, u8::MAX as int) as u8)
    }

    fn inf_add(&self, v: &Self) -> (out: Fallible<Self>) {
        let wide: u16 = *self as u16 + *v as u16;
        if wide < u8::MIN as u16 {
            Ok(u8::MIN)
        } else if wide > u8::MAX as u16 {
            Ok(u8::MAX)
        } else {
            Ok(wide as u8)
        }
    }
}

impl InfSub for u8 {
    open spec fn inf_sub_spec(&self, v: &Self) -> Option<Self> {
        Some(clip(*self - *v, u8::MIN as int, u8::MAX as int) as u8)
    }

    fn inf_sub(&self, v: &Self) -> (out: Fallible<Self>) {
        if *self < *v {
            Ok(0)
        } else {
            Ok(*self - *v)
        }
    }
}

impl InfMul for u8 {
    open spec fn inf_mul_spec(&self, v: &Self) -> Option<Self> {
        Some(clip(*self * *v, u8::MIN as int, u8::MAX as int) as u8)
    }

    fn inf_mul(&self, v: &Self) -> (out: Fallible<Self>) {
        assert(0 <= (*self as int) * (*v as int) <= 0xff * 0xff) by (nonlinear_arith)
            requires
                0 <= *self as int <= 0xff,
                0 <= *v as int <= 0xff,
        ;
        assert(0xff * 0xff <= u16::MAX) by (nonlinear_arith);
        let wide: u16 = (*self as u16) * (*v as u16);
        if wide < u8::MIN as u16 {
            Ok(u8::MIN)
        } else if wide > u8::MAX as u16 {
            Ok(u8::MAX)
        } else {
            Ok(wide as u8)
        }
    }
}

impl AlertingAbs for u8 {
    open spec fn alerting_abs_spec(&self) -> Option<Self> {
        Some(*self)
    }

    fn alerting_abs(&self) -> (out: Fallible<Self>) {
        Ok(*self)
    }
}

impl AlertingMul for u8 {
    open spec fn alerting_mul_spec(&self, v: &Self) -> Option<Self> {
        if u8::MIN <= *self * *v <= u8::MAX {
            Some((*self * *v) as u8)
        } else {
            None
        }
    }

    fn alerting_mul(&self, v: &Self) -> (out: Fallible<Self>) {
        assert(0 <= (*self as int) * (*v as int) <= 0xff * 0xff) by (nonlinear_arith)
            requires
                0 <= *self as int <= 0xff,
                0 <= *v as int <= 0xff,
        ;
        assert(0xff * 0xff <= u16::MAX) by (nonlinear_arith);
        let wide: u16 = (*self as u16) * (*v as u16);
        if wide < u8::MIN as u16 || wide > u8::MAX as u16 {
            Err(Error::new(ErrorVariant::FailedFunction, "the product does not fit"))
        } else {
            Ok(wide as u8)
        }
    }
}

/// The quotient of two numbers that are not negative, rounded up. There
/// is none by zero.
impl InfDiv for u8 {
    open spec fn inf_div_spec(&self, v: &Self) -> Option<Self> {
        if *v == 0 {
            None
        } else {
            Some(ceil_div(*self as int, *v as int) as u8)
        }
    }

    fn inf_div(&self, v: &Self) -> (out: Fallible<Self>) {
        if *v == 0 {
            return Err(Error::new(ErrorVariant::FailedFunction, "division by zero"));
        }
        let quotient = *self / *v;
        if *self % *v == 0 {
            Ok(quotient)
        } else {
            assert(quotient < *self) by (nonlinear_arith)
                requires
                    quotient == *self as int / *v as int,
                    (*self as int) % (*v as int) != 0,
                    0 <= *self,
                    0 < *v,
            ;
            Ok(quotient + 1)
        }
    }
}

impl Integer for u8 {
    open spec fn value(self) -> int {
        self as int
    }

    open spec fn lowest() -> int {
        u8::MIN as int
    }

    open spec fn highest() -> int {
        u8::MAX as int
    }

    proof fn model(a: Self, b: Self) {
    }
}

impl ExactIntCast<usize> for u8 {
    open spec fn exact_int_cast_spec(v: usize) -> Option<Self> {
        if v <= u8::MAX {
            Some(v as u8)
        } else {
            None
        }
    }

    fn exact_int_cast(v: usize) -> (out: Fallible<Self>) {
        if v as u128 <= u8::MAX as u128 {
            Ok(v as u8)
        } else {
            Err(Error::new(ErrorVariant::FailedCast, "the size is greater than the type holds"))
        }
    }
}

impl Zero for u32 {
    open spec fn zero_spec() -> Self {
        0
    }

    fn zero() -> (zero: Self) {
        0
    }
}

impl One for u32 {
    open spec fn one_spec() -> Self {
        1
    }

    fn one() -> (one: Self) {
        1
    }
}

impl InfAdd for u32 {
    open spec fn inf_add_spec(&self, v: &Self) -> Option<Self> {
        Some(clip(*self + *v, u32::MIN as int, u32::MAX as int) as u32)
    }

    fn inf_add(&self, v: &Self) -> (out: Fallible<Self>) {
        let wide: u64 = *self as u64 + *v as u64;
        if wide < u32::MIN as u64 {
            Ok(u32::MIN)
        } else if wide > u32::MAX as u64 {
            Ok(u32::MAX)
        } else {
            Ok(wide as u32)
        }
    }
}

impl InfSub for u32 {
    open spec fn inf_sub_spec(&self, v: &Self) -> Option<Self> {
        Some(clip(*self - *v, u32::MIN as int, u32::MAX as int) as u32)
    }

    fn inf_sub(&self, v: &Self) -> (out: Fallible<Self>) {
        if *self < *v {
            Ok(0)
        } else {
            Ok(*self - *v)
        }
    }
}

impl InfMul for u32 {
    open spec fn inf_mul_spec(&self, v: &Self) -> Option<Self> {
        Some(clip(*self * *v, u32::MIN as int, u32::MAX as int) as u32)
    }

    fn inf_mul(&self, v: &Self) -> (out: Fallible<Self>) {
        assert(0 <= (*self as int) * (*v as int) <= 0xffff_ffff * 0xffff_ffff) by (nonlinear_arith)
            requires
                0 <= *self as int <= 0xffff_ffff,
                0 <= *v as int <= 0xffff_ffff,
        ;
        assert(0xffff_ffff * 0xffff_ffff <= u64::MAX) by (nonlinear_arith);
        let wide: u64 = (*self as u64) * (*v as u64);
        if wide < u32::MIN as u64 {
            Ok(u32::MIN)
        } else if wide > u32::MAX as u64 {
            Ok(u32::MAX)
        } else {
            Ok(wide as u32)
        }
    }
}

impl AlertingAbs for u32 {
    open spec fn alerting_abs_spec(&self) -> Option<Self> {
        Some(*self)
    }

    fn alerting_abs(&self) -> (out: Fallible<Self>) {
        Ok(*self)
    }
}

impl AlertingMul for u32 {
    open spec fn alerting_mul_spec(&self, v: &Self) -> Option<Self> {
        if u32::MIN <= *self * *v <= u32::MAX {
            Some((*self * *v) as u32)
        } else {
            None
        }
    }

    fn alerting_mul(&self, v: &Self) -> (out: Fallible<Self>) {
        assert(0 <= (*self as int) * (*v as int) <= 0xffff_ffff * 0xffff_ffff) by (nonlinear_arith)
            requires
                0 <= *self as int <= 0xffff_ffff,
                0 <= *v as int <= 0xffff_ffff,
        ;
        assert(0xffff_ffff * 0xffff_ffff <= u64::MAX) by (nonlinear_arith);
        let wide: u64 = (*self as u64) * (*v as u64);
        if wide < u32::MIN as u64 || wide > u32::MAX as u64 {
            Err(Error::new(ErrorVariant::FailedFunction, "the product does not fit"))
        } else {
            Ok(wide as u32)
        }
    }
}

/// The quotient of two numbers that are not negative, rounded up. There
/// is none by zero.
impl InfDiv for u32 {
    open spec fn inf_div_spec(&self, v: &Self) -> Option<Self> {
        if *v == 0 {
            None
        } else {
            Some(ceil_div(*self as int, *v as int) as u32)
        }
    }

    fn inf_div(&self, v: &Self) -> (out: Fallible<Self>) {
        if *v == 0 {
            return Err(Error::new(ErrorVariant::FailedFunction, "division by zero"));
        }
        let quotient = *self / *v;
        if *self % *v == 0 {
            Ok(quotient)
        } else {
            assert(quotient < *self) by (nonlinear_arith)
                requires
                    quotient == *self as int / *v as int,
                    (*self as int) % (*v as int) != 0,
                    0 <= *self,
                    0 < *v,
            ;
            Ok(quotient + 1)
        }
    }
}

impl Integer for u32 {
    open spec fn value(self) -> int {
        self as int
    }

    open spec fn lowest() -> int {
        u32::MIN as int
    }

    open spec fn highest() -> int {
        u32::MAX as int
    }

    proof fn model(a: Self, b: Self) {
    }
}

impl ExactIntCast<usize> for u32 {
    open spec fn exact_int_cast_spec(v: usize) -> Option<Self> {
        if v <= u32::MAX {
            Some(v as u32)
        } else {
            None
        }
    }

    fn exact_int_cast(v: usize) -> (out: Fallible<Self>) {
        if v as u128 <= u32::MAX as u128 {
            Ok(v as u32)
        } else {
            Err(Error::new(ErrorVariant::FailedCast, "the size is greater than the type holds"))
        }
    }
}

impl Zero for u64 {
    open spec fn zero_spec() -> Self {
        0
    }

    fn zero() -> (zero: Self) {
        0
    }
}

impl One for u64 {
    open spec fn one_spec() -> Self {
        1
    }

    fn one() -> (one: Self) {
        1
    }
}

impl InfAdd for u64 {
    open spec fn inf_add_spec(&self, v: &Self) -> Option<Self> {
        Some(clip(*self + *v, u64::MIN as int, u64::MAX as int) as u64)
    }

    fn inf_add(&self, v: &Self) -> (out: Fallible<Self>) {
        let wide: u128 = *self as u128 + *v as u128;
        if wide < u64::MIN as u128 {
            Ok(u64::MIN)
        } else if wide > u64::MAX as u128 {
            Ok(u64::MAX)
        } else {
            Ok(wide as u64)
        }
    }
}

impl InfSub for u64 {
    open spec fn inf_sub_spec(&self, v: &Self) -> Option<Self> {
        Some(clip(*self - *v, u64::MIN as int, u64::MAX as int) as u64)
    }

    fn inf_sub(&self, v: &Self) -> (out: Fallible<Self>) {
        if *self < *v {
            Ok(0)
        } else {
            Ok(*self - *v)
        }
    }
}

impl InfMul for u64 {
    open spec fn inf_mul_spec(&self, v: &Self) -> Option<Self> {
        Some(clip(*self * *v, u64::MIN as int, u64::MAX as int) as u64)
    }

    fn inf_mul(&self, v: &Self) -> (out: Fallible<Self>) {
        assert(0 <= (*self as int) * (*v as int) <= 0xffff_ffff_ffff_ffff * 0xffff_ffff_ffff_ffff) by (nonlinear_arith)
            requires
                0 <= *self as int <= 0xffff_ffff_ffff_ffff,
                0 <= *v as int <= 0xffff_ffff_ffff_ffff,
        ;
        assert(0xffff_ffff_ffff_ffff * 0xffff_ffff_ffff_ffff <= u128::MAX) by (nonlinear_arith);
        let wide: u128 = (*self as u128) * (*v as u128);
        if wide < u64::MIN as u128 {
            Ok(u64::MIN)
        } else if wide > u64::MAX as u128 {
            Ok(u64::MAX)
        } else {
            Ok(wide as u64)
        }
    }
}

impl AlertingAbs for u64 {
    open spec fn alerting_abs_spec(&self) -> Option<Self> {
        Some(*self)
    }

    fn alerting_abs(&self) -> (out: Fallible<Self>) {
        Ok(*self)
    }
}

impl AlertingMul for u64 {
    open spec fn alerting_mul_spec(&self, v: &Self) -> Option<Self> {
        if u64::MIN <= *self * *v <= u64::MAX {
            Some((*self * *v) as u64)
        } else {
            None
        }
    }

    fn alerting_mul(&self, v: &Self) -> (out: Fallible<Self>) {
        assert(0 <= (*self as int) * (*v as int) <= 0xffff_ffff_ffff_ffff * 0xffff_ffff_ffff_ffff) by (nonlinear_arith)
            requires
                0 <= *self as int <= 0xffff_ffff_ffff_ffff,
                0 <= *v as int <= 0xffff_ffff_ffff_ffff,
        ;
        assert(0xffff_ffff_ffff_ffff * 0xffff_ffff_ffff_ffff <= u128::MAX) by (nonlinear_arith);
        let wide: u128 = (*self as u128) * (*v as u128);
        if wide < u64::MIN as u128 || wide > u64::MAX as u128 {
            Err(Error::new(ErrorVariant::FailedFunction, "the product does not fit"))
        } else {
            Ok(wide as u64)
        }
    }
}

/// The quotient of two numbers that are not negative, rounded up. There
/// is none by zero.
impl InfDiv for u64 {
    open spec fn inf_div_spec(&self, v: &Self) -> Option<Self> {
        if *v == 0 {
            None
        } else {
            Some(ceil_div(*self as int, *v as int) as u64)
        }
    }

    fn inf_div(&self, v: &Self) -> (out: Fallible<Self>) {
        if *v == 0 {
            return Err(Error::new(ErrorVariant::FailedFunction, "division by zero"));
        }
        let quotient = *self / *v;
        if *self % *v == 0 {
            Ok(quotient)
        } else {
            assert(quotient < *self) by (nonlinear_arith)
                requires
                    quotient == *self as int / *v as int,
                    (*self as int) % (*v as int) != 0,
                    0 <= *self,
                    0 < *v,
            ;
            Ok(quotient + 1)
        }
    }
}

impl Integer for u64 {
    open spec fn value(self) -> int {
        self as int
    }

    open spec fn lowest() -> int {
        u64::MIN as int
    }

    open spec fn highest() -> int {
        u64::MAX as int
    }

    proof fn model(a: Self, b: Self) {
    }
}

impl ExactIntCast<usize> for u64 {
    open spec fn exact_int_cast_spec(v: usize) -> Option<Self> {
        if v <= u64::MAX {
            Some(v as u64)
        } else {
            None
        }
    }

    fn exact_int_cast(v: usize) -> (out: Fallible<Self>) {
        if v as u128 <= u64::MAX as u128 {
            Ok(v as u64)
        } else {
            Err(Error::new(ErrorVariant::FailedCast, "the size is greater than the type holds"))
        }
    }
}

impl InfCast<u8> for u8 {
    open spec fn inf_cast_spec(v: u8) -> Option<Self> {
        Some(v)
    }

    fn inf_cast(v: u8) -> (out: Fallible<Self>) {
        Ok(v)
    }
}

impl IntegerCast<u8> for u8 {
    proof fn cast_model(v: u8) {
    }
}

impl InfCast<i32> for i32 {
    open spec fn inf_cast_spec(v: i32) -> Option<Self> {
        Some(v)
    }

    fn inf_cast(v: i32) -> (out: Fallible<Self>) {
        Ok(v)
    }
}

impl IntegerCast<i32> for i32 {
    proof fn cast_model(v: i32) {
    }
}

impl InfCast<i64> for i32 {
    open spec fn inf_cast_spec(v: i64) -> Option<Self> {
        if i32::MIN <= v <= i32::MAX {
            Some(v as i32)
        } else {
            None
        }
    }

    fn inf_cast(v: i64) -> (out: Fallible<Self>) {
        if i32::MIN as i128 <= v as i128 && v as i128 <= i32::MAX as i128 {
            Ok(v as i32)
        } else {
            Err(Error::new(ErrorVariant::FailedCast, "the value is outside the range of the type"))
        }
    }
}

impl IntegerCast<i64> for i32 {
    proof fn cast_model(v: i64) {
    }
}

impl InfCast<u32> for i32 {
    open spec fn inf_cast_spec(v: u32) -> Option<Self> {
        if i32::MIN <= v <= i32::MAX {
            Some(v as i32)
        } else {
            None
        }
    }

    fn inf_cast(v: u32) -> (out: Fallible<Self>) {
        if i32::MIN as i128 <= v as i128 && v as i128 <= i32::MAX as i128 {
            Ok(v as i32)
        } else {
            Err(Error::new(ErrorVariant::FailedCast, "the value is outside the range of the type"))
        }
    }
}

impl IntegerCast<u32> for i32 {
    proof fn cast_model(v: u32) {
    }
}

impl InfCast<u64> for i32 {
    open spec fn inf_cast_spec(v: u64) -> Option<Self> {
        if i32::MIN <= v <= i32::MAX {
            Some(v as i32)
        } else {
            None
        }
    }

    fn inf_cast(v: u64) -> (out: Fallible<Self>) {
        if i32::MIN as i128 <= v as i128 && v as i128 <= i32::MAX as i128 {
            Ok(v as i32)
        } else {
            Err(Error::new(ErrorVariant::FailedCast, "the value is outside the range of the type"))
        }
    }
}

impl IntegerCast<u64> for i32 {
    proof fn cast_model(v: u64) {
    }
}

impl InfCast<i32> for i64 {
    open spec fn inf_cast_spec(v: i32) -> Option<Self> {
        if i64::MIN <= v <= i64::MAX {
            Some(v as i64)
        } else {
            None
        }
    }

    fn inf_cast(v: i32) -> (out: Fallible<Self>) {
        if i64::MIN as i128 <= v as i128 && v as i128 <= i64::MAX as i128 {
            Ok(v as i64)
        } else {
            Err(Error::new(ErrorVariant::FailedCast, "the value is outside the range of the type"))
        }
    }
}

impl IntegerCast<i32> for i64 {
    proof fn cast_model(v: i32) {
    }
}

impl InfCast<i64> for i64 {
    open spec fn inf_cast_spec(v: i64) -> Option<Self> {
        Some(v)
    }

    fn inf_cast(v: i64) -> (out: Fallible<Self>) {
        Ok(v)
    }
}

impl IntegerCast<i64> for i64 {
    proof fn cast_model(v: i64) {
    }
}

impl InfCast<u32> for i64 {
    open spec fn inf_cast_spec(v: u32) -> Option<Self> {
        if i64::MIN <= v <= i64::MAX {
            Some(v as i64)
        } else {
            None
        }
    }

    fn inf_cast(v: u32) -> (out: Fallible<Self>) {
        if i64::MIN as i128 <= v as i128 && v as i128 <= i64::MAX as i128 {
            Ok(v as i64)
        } else {
            Err(Error::new(ErrorVariant::FailedCast, "the value is outside the range of the type"))
        }
    }
}

impl IntegerCast<u32> for i64 {
    proof fn cast_model(v: u32) {
    }
}

impl InfCast<u64> for i64 {
    open spec fn inf_cast_spec(v: u64) -> Option<Self> {
        if i64::MIN <= v <= i64::MAX {
            Some(v as i64)
        } else {
            None
        }
    }

    fn inf_cast(v: u64) -> (out: Fallible<Self>) {
        if i64::MIN as i128 <= v as i128 && v as i128 <= i64::MAX as i128 {
            Ok(v as i64)
        } else {
            Err(Error::new(ErrorVariant::FailedCast, "the value is outside the range of the type"))
        }
    }
}

impl IntegerCast<u64> for i64 {
    proof fn cast_model(v: u64) {
    }
}

impl InfCast<i32> for u32 {
    open spec fn inf_cast_spec(v: i32) -> Option<Self> {
        if u32::MIN <= v <= u32::MAX {
            Some(v as u32)
        } else {
            None
        }
    }

    fn inf_cast(v: i32) -> (out: Fallible<Self>) {
        if u32::MIN as i128 <= v as i128 && v as i128 <= u32::MAX as i128 {
            Ok(v as u32)
        } else {
            Err(Error::new(ErrorVariant::FailedCast, "the value is outside the range of the type"))
        }
    }
}

impl IntegerCast<i32> for u32 {
    proof fn cast_model(v: i32) {
    }
}

impl InfCast<i64> for u32 {
    open spec fn inf_cast_spec(v: i64) -> Option<Self> {
        if u32::MIN <= v <= u32::MAX {
            Some(v as u32)
        } else {
            None
        }
    }

    fn inf_cast(v: i64) -> (out: Fallible<Self>) {
        if u32::MIN as i128 <= v as i128 && v as i128 <= u32::MAX as i128 {
            Ok(v as u32)
        } else {
            Err(Error::new(ErrorVariant::FailedCast, "the value is outside the range of the type"))
        }
    }
}

impl IntegerCast<i64> for u32 {
    proof fn cast_model(v: i64) {
    }
}

impl InfCast<u32> for u32 {
    open spec fn inf_cast_spec(v: u32) -> Option<Self> {
        Some(v)
    }

    fn inf_cast(v: u32) -> (out: Fallible<Self>) {
        Ok(v)
    }
}

impl IntegerCast<u32> for u32 {
    proof fn cast_model(v: u32) {
    }
}

impl InfCast<u64> for u32 {
    open spec fn inf_cast_spec(v: u64) -> Option<Self> {
        if u32::MIN <= v <= u32::MAX {
            Some(v as u32)
        } else {
            None
        }
    }

    fn inf_cast(v: u64) -> (out: Fallible<Self>) {
        if u32::MIN as i128 <= v as i128 && v as i128 <= u32::MAX as i128 {
            Ok(v as u32)
        } else {
            Err(Error::new(ErrorVariant::FailedCast, "the value is outside the range of the type"))
        }
    }
}

impl IntegerCast<u64> for u32 {
    proof fn cast_model(v: u64) {
    }
}

impl InfCast<i32> for u64 {
    open spec fn inf_cast_spec(v: i32) -> Option<Self> {
        if u64::MIN <= v <= u64::MAX {
            Some(v as u64)
        } else {
            None
        }
    }

    fn inf_cast(v: i32) -> (out: Fallible<Self>) {
        if u64::MIN as i128 <= v as i128 && v as i128 <= u64::MAX as i128 {
            Ok(v as u64)
        } else {
            Err(Error::new(ErrorVariant::FailedCast, "the value is outside the range of the type"))
        }
    }
}

impl IntegerCast<i32> for u64 {
    proof fn cast_model(v: i32) {
    }
}

impl InfCast<i64> for u64 {
    open spec fn inf_cast_spec(v: i64) -> Option<Self> {
        if u64::MIN <= v <= u64::MAX {
            Some(v as u64)
        } else {
            None
        }
    }

    fn inf_cast(v: i64) -> (out: Fallible<Self>) {
        if u64::MIN as i128 <= v as i128 && v as i128 <= u64::MAX as i128 {
            Ok(v as u64)
        } else {
            Err(Error::new(ErrorVariant::FailedCast, "the value is outside the range of the type"))
        }
    }
}

impl IntegerCast<i64> for u64 {
    proof fn cast_model(v: i64) {
    }
}

impl InfCast<u32> for u64 {
    open spec fn inf_cast_spec(v: u32) -> Option<Self> {
        if u64::MIN <= v <= u64::MAX {
            Some(v as u64)
        } else {
            None
        }
    }

    fn inf_cast(v: u32) -> (out: Fallible<Self>) {
        if u64::MIN as i128 <= v as i128 && v as i128 <= u64::MAX as i128 {
            Ok(v as u64)
        } else {
            Err(Error::new(ErrorVariant::FailedCast, "the value is outside the range of the type"))
        }
    }
}

impl IntegerCast<u32> for u64 {
    proof fn cast_model(v: u32) {
    }
}

impl InfCast<u64> for u64 {
    open spec fn inf_cast_spec(v: u64) -> Option<Self> {
        Some(v)
    }

    fn inf_cast(v: u64) -> (out: Fallible<Self>) {
        Ok(v)
    }
}

impl IntegerCast<u64> for u64 {
    proof fn cast_model(v: u64) {
    }
}

} // verus!
