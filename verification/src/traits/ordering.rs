//! A total order on the values of a type that are not null.

use crate::error::{Error, ErrorVariant, Fallible};
use vstd::prelude::*;

verus! {

/// How one value stands to another.
#[derive(Clone, Copy, Debug, PartialEq, Eq, Structural)]
pub enum Comparison {
    Less,
    Equal,
    Greater,
}

/// How `a` stands to `b` among the integers.
pub open spec fn compare_ints(a: int, b: int) -> Comparison {
    if a < b {
        Comparison::Less
    } else if a == b {
        Comparison::Equal
    } else {
        Comparison::Greater
    }
}

/// Whether an outcome is the answer `expected`, or, where there is no
/// answer, a failure of the kind `FailedFunction`.
pub open spec fn answers<T>(out: Fallible<T>, expected: Option<T>) -> bool {
    match expected {
        Some(value) => out == Ok::<T, Error>(value),
        None => out matches Err(e) && e.variant == ErrorVariant::FailedFunction,
    }
}

/// Types whose values, as far as they are not null, are totally ordered.
///
/// Comparing fails when one of the two values is null.
pub trait TotalOrd: Sized {
    /// How `self` stands to `other`; `None` where one of them is null. A
    /// type that does not say otherwise holds null values only.
    open spec fn compare(&self, other: &Self) -> Option<Comparison> {
        None
    }

    /// The order of `self` and `other`.
    fn total_cmp(&self, other: &Self) -> (out: Fallible<Comparison>)
        ensures
            answers(out, self.compare(other)),
    ;

    /// The greater of the two, `other` where they are equal.
    fn total_max(self, other: Self) -> (out: Fallible<Self>)
        ensures
            answers(
                out,
                match self.compare(&other) {
                    Some(Comparison::Greater) => Some(self),
                    Some(_) => Some(other),
                    None => None,
                },
            ),
    {
        match self.total_cmp(&other) {
            Ok(Comparison::Greater) => Ok(self),
            Ok(_) => Ok(other),
            Err(e) => Err(e),
        }
    }

    /// The lesser of the two, `self` where they are equal.
    fn total_min(self, other: Self) -> (out: Fallible<Self>)
        ensures
            answers(
                out,
                match self.compare(&other) {
                    Some(Comparison::Greater) => Some(other),
                    Some(_) => Some(self),
                    None => None,
                },
            ),
    {
        match self.total_cmp(&other) {
            Ok(Comparison::Greater) => Ok(other),
            Ok(_) => Ok(self),
            Err(e) => Err(e),
        }
    }

    /// `self` brought into the range from `min` to `max`. Fails where `min`
    /// is greater than `max`, or where a value that has to be compared is
    /// null.
    fn total_clamp(self, min: Self, max: Self) -> (out: Fallible<Self>)
        ensures
            answers(
                out,
                if min.compare(&max) == Some(Comparison::Greater) {
                    None
                } else {
                    match self.compare(&min) {
                        Some(Comparison::Less) => Some(min),
                        Some(_) => match self.compare(&max) {
                            Some(Comparison::Greater) => Some(max),
                            Some(_) => Some(self),
                            None => None,
                        },
                        None => None,
                    }
                },
            ),
    {
        match min.total_cmp(&max) {
            Ok(Comparison::Greater) => {
                return Err(Error::new(ErrorVariant::FailedFunction, "min cannot be greater than max"));
            },
            _ => {},
        }
        match self.total_cmp(&min) {
            Ok(Comparison::Less) => Ok(min),
            Ok(_) => match self.total_cmp(&max) {
                Ok(Comparison::Greater) => Ok(max),
                Ok(_) => Ok(self),
                Err(e) => Err(e),
            },
            Err(e) => Err(e),
        }
    }

    /// Whether `self` is less than `other`.
    fn total_lt(&self, other: &Self) -> (out: Fallible<bool>)
        ensures
            answers(
                out,
                match self.compare(other) {
                    Some(c) => Some(c == Comparison::Less),
                    None => None,
                },
            ),
    {
        match self.total_cmp(other) {
            Ok(Comparison::Less) => Ok(true),
            Ok(_) => Ok(false),
            Err(e) => Err(e),
        }
    }

    /// Whether `self` is less than or equal to `other`.
    fn total_le(&self, other: &Self) -> (out: Fallible<bool>)
        ensures
            answers(
                out,
                match self.compare(other) {
                    Some(c) => Some(c != Comparison::Greater),
                    None => None,
                },
            ),
    {
        match self.total_cmp(other) {
            Ok(Comparison::Greater) => Ok(false),
            Ok(_) => Ok(true),
            Err(e) => Err(e),
        }
    }

    /// Whether `self` is greater than `other`.
    fn total_gt(&self, other: &Self) -> (out: Fallible<bool>)
        ensures
            answers(
                out,
                match self.compare(other) {
                    Some(c) => Some(c == Comparison::Greater),
                    None => None,
                },
            ),
    {
        match self.total_cmp(other) {
            Ok(Comparison::Greater) => Ok(true),
            Ok(_) => Ok(false),
            Err(e) => Err(e),
        }
    }

    /// Whether `self` is greater than or equal to `other`.
    fn total_ge(&self, other: &Self) -> (out: Fallible<bool>)
        ensures
            answers(
                out,
                match self.compare(other) {
                    Some(c) => Some(c != Comparison::Less),
                    None => None,
                },
            ),
    {
        match self.total_cmp(other) {
            Ok(Comparison::Less) => Ok(false),
            Ok(_) => Ok(true),
            Err(e) => Err(e),
        }
    }
}

/// How a pair stands to another, from how their parts stand: the pair
/// is less, or greater, where no part goes the other way; there is no
/// answer where one part is less and the other greater.
pub open spec fn compare_pairs(first: Comparison, second: Comparison) -> Option<Comparison> {
    match (first, second) {
        (Comparison::Less, Comparison::Greater) => None,
        (Comparison::Greater, Comparison::Less) => None,
        (Comparison::Equal, c) => Some(c),
        (c, _) => Some(c),
    }
}

impl<T1: TotalOrd, T2: TotalOrd> TotalOrd for (T1, T2) {
    open spec fn compare(&self, other: &Self) -> Option<Comparison> {
        match (self.0.compare(&other.0), self.1.compare(&other.1)) {
            (Some(first), Some(second)) => compare_pairs(first, second),
            _ => None,
        }
    }

    fn total_cmp(&self, other: &Self) -> (out: Fallible<Comparison>) {
        let first = match self.0.total_cmp(&other.0) {
            Ok(c) => c,
            Err(e) => {
                return Err(e);
            },
        };
        let second = match self.1.total_cmp(&other.1) {
            Ok(c) => c,
            Err(e) => {
                return Err(e);
            },
        };
        match (first, second) {
            (Comparison::Less, Comparison::Less) => Ok(Comparison::Less),
            (Comparison::Less, Comparison::Equal) => Ok(Comparison::Less),
            (Comparison::Less, Comparison::Greater) => Err(
                Error::new(ErrorVariant::FailedFunction, "arguments are not totally ordered"),
            ),
            (Comparison::Equal, Comparison::Less) => Ok(Comparison::Less),
            (Comparison::Equal, Comparison::Equal) => Ok(Comparison::Equal),
            (Comparison::Equal, Comparison::Greater) => Ok(Comparison::Greater),
            (Comparison::Greater, Comparison::Less) => Err(
                Error::new(ErrorVariant::FailedFunction, "arguments are not totally ordered"),
            ),
            (Comparison::Greater, Comparison::Equal) => Ok(Comparison::Greater),
            (Comparison::Greater, Comparison::Greater) => Ok(Comparison::Greater),
        }
    }
}

impl TotalOrd for u8 {
    open spec fn compare(&self, other: &Self) -> Option<Comparison> {
        Some(compare_ints(*self as int, *other as int))
    }

    fn total_cmp(&self, other: &Self) -> (out: Fallible<Comparison>) {
        if *self < *other {
            Ok(Comparison::Less)
        } else if *self == *other {
            Ok(Comparison::Equal)
        } else {
            Ok(Comparison::Greater)
        }
    }
}

impl TotalOrd for i32 {
    open spec fn compare(&self, other: &Self) -> Option<Comparison> {
        Some(compare_ints(*self as int, *other as int))
    }

    fn total_cmp(&self, other: &Self) -> (out: Fallible<Comparison>) {
        if *self < *other {
            Ok(Comparison::Less)
        } else if *self == *other {
            Ok(Comparison::Equal)
        } else {
            Ok(Comparison::Greater)
        }
    }
}

impl TotalOrd for i64 {
    open spec fn compare(&self, other: &Self) -> Option<Comparison> {
        Some(compare_ints(*self as int, *other as int))
    }

    fn total_cmp(&self, other: &Self) -> (out: Fallible<Comparison>) {
        if *self < *other {
            Ok(Comparison::Less)
        } else if *self == *other {
            Ok(Comparison::Equal)
        } else {
            Ok(Comparison::Greater)
        }
    }
}

impl TotalOrd for u32 {
    open spec fn compare(&self, other: &Self) -> Option<Comparison> {
        Some(compare_ints(*self as int, *other as int))
    }

    fn total_cmp(&self, other: &Self) -> (out: Fallible<Comparison>) {
        if *self < *other {
            Ok(Comparison::Less)
        } else if *self == *other {
            Ok(Comparison::Equal)
        } else {
            Ok(Comparison::Greater)
        }
    }
}

impl TotalOrd for u64 {
    open spec fn compare(&self, other: &Self) -> Option<Comparison> {
        Some(compare_ints(*self as int, *other as int))
    }

    fn total_cmp(&self, other: &Self) -> (out: Fallible<Comparison>) {
        if *self < *other {
            Ok(Comparison::Less)
        } else if *self == *other {
            Ok(Comparison::Equal)
        } else {
            Ok(Comparison::Greater)
        }
    }
}

} // verus!
