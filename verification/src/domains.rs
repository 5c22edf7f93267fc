//! The domains that the library provides.

use crate::error::{Error, ErrorVariant, Fallible};
use crate::spaces::{Component, Domain};
use crate::traits::arithmetic::Integer;
use crate::traits::checks::CheckNull;
use crate::traits::ordering::{Comparison, TotalOrd};
use std::marker::PhantomData;
use vstd::prelude::*;
use vstd::string::StringExecFns;

verus! {

/// The domain of all values of a type.
pub struct AllDomain<T> {
    pub carrier: PhantomData<T>,
}

impl<T> AllDomain<T> {
    /// The domain of all values of `T`.
    pub fn new() -> (domain: Self) {
        AllDomain { carrier: PhantomData }
    }
}

impl<T> Clone for AllDomain<T> {
    fn clone(&self) -> (copy: Self)
        ensures
            copy == *self,
    {
        AllDomain { carrier: PhantomData }
    }
}

impl<T> Default for AllDomain<T> {
    fn default() -> (domain: Self) {
        AllDomain { carrier: PhantomData }
    }
}

impl<T> Component for AllDomain<T> {
    fn duplicate(&self) -> (copy: Self) {
        AllDomain { carrier: PhantomData }
    }

    fn matches(&self, other: &Self) -> (same: bool) {
        true
    }

    open spec fn description(&self) -> Seq<char> {
        "AllDomain()"@
    }

    fn describe(&self) -> (text: String) {
        String::from_str("AllDomain()")
    }
}

impl<T> Domain for AllDomain<T> {
    type Carrier = T;

    open spec fn contains(&self, val: T) -> Option<bool> {
        Some(true)
    }

    fn member(&self, val: &T) -> (out: Fallible<bool>) {
        Ok(true)
    }
}

/// Whether `val` lies between `lower` and `upper`, ends included; `None`
/// where a comparison that has to be made has no answer.
pub open spec fn within<T: TotalOrd>(val: T, lower: T, upper: T) -> Option<bool> {
    match val.compare(&lower) {
        Some(Comparison::Less) => Some(false),
        Some(_) => match val.compare(&upper) {
            Some(c) => Some(c != Comparison::Greater),
            None => None,
        },
        None => None,
    }
}

/// The domain of single values of an integer type: all of them, or those
/// between two bounds; null values belong only where the domain is nullable.
pub struct AtomDomain<T: Integer + CheckNull> {
    pub bounds: Option<(T, T)>,
    pub nullable: bool,
}

impl<T: Integer + CheckNull> AtomDomain<T> {
    /// Where there are bounds, the lower one is not greater than the upper.
    pub open spec fn wf(&self) -> bool {
        self.bounds matches Some((lower, upper)) ==> lower.value() <= upper.value()
    }

    /// The domain of the values from `lower` to `upper`, ends included.
    /// Fails with `MakeDomain` where `lower` is greater than `upper`.
    pub fn new_closed(bounds: (T, T)) -> (out: Fallible<Self>)
        ensures
            match out {
                Ok(domain) => domain.wf() && domain.bounds == Some(bounds) && !domain.nullable,
                Err(e) => e.variant == ErrorVariant::MakeDomain && bounds.0.value()
                    > bounds.1.value(),
            },
    {
        proof {
            T::model(bounds.0, bounds.1);
        }
        match bounds.0.total_cmp(&bounds.1) {
            Ok(Comparison::Greater) => Err(
                Error::new(
                    ErrorVariant::MakeDomain,
                    "lower bound may not be greater than upper bound",
                ),
            ),
            _ => Ok(AtomDomain { bounds: Some(bounds), nullable: false }),
        }
    }
}

impl<T: Integer + CheckNull> Clone for AtomDomain<T> {
    fn clone(&self) -> (copy: Self)
        ensures
            copy == *self,
    {
        AtomDomain { bounds: self.bounds, nullable: self.nullable }
    }
}

impl<T: Integer + CheckNull> Default for AtomDomain<T> {
    fn default() -> (domain: Self)
        ensures
            domain.bounds is None,
            !domain.nullable,
    {
        AtomDomain { bounds: None, nullable: false }
    }
}

impl<T: Integer + CheckNull> Component for AtomDomain<T> {
    fn duplicate(&self) -> (copy: Self) {
        AtomDomain { bounds: self.bounds, nullable: self.nullable }
    }

    fn matches(&self, other: &Self) -> (same: bool) {
        if self.nullable != other.nullable {
            return false;
        }
        match (self.bounds, other.bounds) {
            (None, None) => true,
            (Some((lower, upper)), Some((other_lower, other_upper))) => {
                proof {
                    T::model(lower, other_lower);
                    T::model(upper, other_upper);
                }
                let lower_same = match lower.total_cmp(&other_lower) {
                    Ok(Comparison::Equal) => true,
                    _ => false,
                };
                let upper_same = match upper.total_cmp(&other_upper) {
                    Ok(Comparison::Equal) => true,
                    _ => false,
                };
                lower_same && upper_same
            },
            _ => false,
        }
    }

    open spec fn description(&self) -> Seq<char> {
        "AtomDomain("@ + (if self.bounds is Some {
            "bounded"@
        } else {
            "unbounded"@
        }) + (if self.nullable {
            ", nullable)"@
        } else {
            ")"@
        })
    }

    fn describe(&self) -> (text: String) {
        let text = String::from_str("AtomDomain(");
        let text = text.concat(
            if self.bounds.is_some() {
                "bounded"
            } else {
                "unbounded"
            },
        );
        text.concat(
            if self.nullable {
                ", nullable)"
            } else {
                ")"
            },
        )
    }
}

impl<T: Integer + CheckNull> Domain for AtomDomain<T> {
    type Carrier = T;

    open spec fn contains(&self, val: T) -> Option<bool> {
        match self.bounds {
            Some((lower, upper)) => match within(val, lower, upper) {
                Some(true) => Some(self.nullable || !val.null()),
                other => other,
            },
            None => Some(self.nullable || !val.null()),
        }
    }

    fn member(&self, val: &T) -> (out: Fallible<bool>) {
        if let Some((lower, upper)) = self.bounds {
            match val.total_cmp(&lower) {
                Ok(Comparison::Less) => {
                    return Ok(false);
                },
                Ok(_) => match val.total_cmp(&upper) {
                    Ok(Comparison::Greater) => {
                        return Ok(false);
                    },
                    Ok(_) => {},
                    Err(e) => {
                        return Err(e);
                    },
                },
                Err(e) => {
                    return Err(e);
                },
            }
        }
        if !self.nullable && val.is_null() {
            return Ok(false);
        }
        Ok(true)
    }
}

/// Whether every item of `items` belongs to `domain`, asked item by item
/// from the front: the first answer that is not "yes" is the answer.
pub open spec fn all_contained<D: Domain>(domain: D, items: Seq<D::Carrier>) -> Option<bool>
    decreases items.len(),
{
    if items.len() == 0 {
        Some(true)
    } else {
        match domain.contains(items[0]) {
            Some(true) => all_contained(domain, items.drop_first()),
            other => other,
        }
    }
}

/// The domain of vectors whose items belong to a domain, of any length or
/// of one given length.
pub struct VectorDomain<D: Domain> {
    pub element_domain: D,
    pub size: Option<usize>,
}

impl<D: Domain> VectorDomain<D> {
    /// The vectors of items of `element_domain`; where `size` is given, only
    /// those of that length.
    pub fn new(element_domain: D, size: Option<usize>) -> (domain: Self)
        ensures
            domain.element_domain == element_domain,
            domain.size == size,
    {
        VectorDomain { element_domain, size }
    }
}

impl<D: Domain> Clone for VectorDomain<D> {
    fn clone(&self) -> (copy: Self)
        ensures
            copy == *self,
    {
        VectorDomain { element_domain: self.element_domain.duplicate(), size: self.size }
    }
}

impl<D: Domain> Component for VectorDomain<D> {
    fn duplicate(&self) -> (copy: Self) {
        VectorDomain { element_domain: self.element_domain.duplicate(), size: self.size }
    }

    fn matches(&self, other: &Self) -> (same: bool) {
        let sizes_same = match (self.size, other.size) {
            (None, None) => true,
            (Some(a), Some(b)) => a == b,
            _ => false,
        };
        sizes_same && self.element_domain.matches(&other.element_domain)
    }

    open spec fn description(&self) -> Seq<char> {
        "VectorDomain("@ + self.element_domain.description() + (if self.size is Some {
            ", sized)"@
        } else {
            ")"@
        })
    }

    fn describe(&self) -> (text: String) {
        let element = self.element_domain.describe();
        let text = String::from_str("VectorDomain(").concat(element.as_str());
        text.concat(
            if self.size.is_some() {
                ", sized)"
            } else {
                ")"
            },
        )
    }
}

impl<D: Domain> Domain for VectorDomain<D> {
    type Carrier = Vec<D::Carrier>;

    open spec fn contains(&self, val: Vec<D::Carrier>) -> Option<bool> {
        match all_contained(self.element_domain, val@) {
            Some(true) => Some(
                match self.size {
                    Some(size) => size == val@.len(),
                    None => true,
                },
            ),
            other => other,
        }
    }

    fn member(&self, val: &Vec<D::Carrier>) -> (out: Fallible<bool>) {
        let mut i: usize = 0;
        assert(val@.subrange(0, val@.len() as int) == val@);
        while i < val.len()
            invariant
                i <= val@.len(),
                all_contained(self.element_domain, val@) == all_contained(
                    self.element_domain,
                    val@.subrange(i as int, val@.len() as int),
                ),
            decreases val@.len() - i,
        {
            let ghost rest = val@.subrange(i as int, val@.len() as int);
            assert(rest[0] == val@[i as int]);
            assert(rest.drop_first() == val@.subrange(i + 1, val@.len() as int));
            match self.element_domain.member(&val[i]) {
                Ok(true) => {},
                Ok(false) => {
                    return Ok(false);
                },
                Err(e) => {
                    return Err(e);
                },
            }
            i += 1;
        }
        assert(val@.subrange(i as int, val@.len() as int).len() == 0);
        match self.size {
            Some(size) => Ok(size == val.len()),
            None => Ok(true),
        }
    }
}

} // verus!
