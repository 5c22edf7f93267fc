//! Sums of bounded numbers.

use crate::domains::{AllDomain, AtomDomain, VectorDomain};
use crate::error::{Error, ErrorVariant, Fallible};
use crate::function::{Callable, Function};
use crate::maps::{constant_outcome, StabilityMap};
use crate::measures::{sum_from, sum_up};
use crate::metrics::{AbsoluteDistance, IntDistance, SymmetricDistance};
use crate::traits::arithmetic::{ExactIntCast, InfCast, Integer};
use crate::traits::checks::CheckNull;
use crate::traits::ordering::{answers, Comparison};
use crate::transformation::Transformation;
use std::rc::Rc;
use vstd::prelude::*;

verus! {

/// Every item of `v`, doubled.
pub fn double(v: &Vec<i32>) -> (doubled: Vec<i32>)
    requires
        forall|i: int| 0 <= i < v@.len() ==> i32::MIN <= 2 * #[trigger] v@[i] <= i32::MAX,
    ensures
        doubled@.len() == v@.len(),
        forall|i: int| 0 <= i < v@.len() ==> #[trigger] doubled@[i] == 2 * v@[i],
{
    let mut doubled: Vec<i32> = Vec::new();
    let mut i: usize = 0;
    while i < v.len()
        invariant
            i <= v@.len(),
            doubled@.len() == i,
            forall|j: int| 0 <= j < v@.len() ==> i32::MIN <= 2 * #[trigger] v@[j] <= i32::MAX,
            forall|j: int| 0 <= j < i ==> #[trigger] doubled@[j] == 2 * v@[j],
        decreases v@.len() - i,
    {
        assert(i32::MIN <= 2 * v@[i as int] <= i32::MAX);
        doubled.push(v[i] * 2);
        i += 1;
    }
    doubled
}

/// The sum of a vector, as a callable. A sum that does not fit stays at
/// the end of the type.
pub struct Sum {}

impl<T: Integer> Callable<Vec<T>, T> for Sum {
    open spec fn outcome(&self, arg: Vec<T>, out: Fallible<T>) -> bool {
        answers(out, sum_from(T::zero_spec(), arg@))
    }

    fn call(&self, arg: &Vec<T>) -> (out: Fallible<T>) {
        sum_up(arg)
    }
}

/// The greater of the absolute values of the two bounds, where both
/// exist: how far one row can move the sum.
pub open spec fn sum_sensitivity<T: Integer>(bounds: (T, T)) -> Option<T> {
    match (bounds.0.alerting_abs_spec(), bounds.1.alerting_abs_spec()) {
        (Some(lower), Some(upper)) => match lower.compare(&upper) {
            Some(Comparison::Greater) => Some(lower),
            Some(_) => Some(upper),
            None => None,
        },
        _ => None,
    }
}

/// The transformation that sums vectors of numbers between `bounds`.
/// Adding or removing one row moves the sum by at most the greater of the
/// absolute values of the bounds.
///
/// Fails with `MakeDomain` where the lower bound is greater than the
/// upper, else with `FailedFunction` where the absolute value of a bound
/// does not fit the type.
pub fn make_bounded_sum<T>(bounds: (T, T)) -> (out: Fallible<
    Transformation<VectorDomain<AtomDomain<T>>, AllDomain<T>, SymmetricDistance, AbsoluteDistance<T>>,
>) where T: Integer + CheckNull + InfCast<IntDistance> + 'static
    ensures
        match out {
            Ok(sum) => {
                &&& bounds.0.value() <= bounds.1.value()
                &&& sum.input_domain.element_domain.bounds == Some(bounds)
                &&& !sum.input_domain.element_domain.nullable
                &&& sum.input_domain.size is None
                &&& forall|arg: Vec<T>, res: Fallible<T>| #[trigger]
                    sum.function.outcome(arg, res) <==> answers(
                        res,
                        sum_from(T::zero_spec(), arg@),
                    )
                &&& sum_sensitivity(bounds) matches Some(c) && forall|
                    d_in: IntDistance,
                    d_out: Fallible<T>,
                | #[trigger]
                    sum.stability_map.outcome(d_in, d_out) <==> constant_outcome(c, d_in, d_out)
            },
            Err(e) => if bounds.0.value() > bounds.1.value() {
                e.variant == ErrorVariant::MakeDomain
            } else {
                e.variant == ErrorVariant::FailedFunction && sum_sensitivity(bounds) is None
            },
        },
{
    let (lower, upper) = bounds;
    proof {
        T::model(lower, upper);
    }
    let atom_domain = match AtomDomain::new_closed(bounds) {
        Ok(domain) => domain,
        Err(e) => {
            return Err(e);
        },
    };
    let lower_abs = match lower.alerting_abs() {
        Ok(abs) => abs,
        Err(e) => {
            return Err(e);
        },
    };
    let upper_abs = match upper.alerting_abs() {
        Ok(abs) => abs,
        Err(e) => {
            return Err(e);
        },
    };
    proof {
        T::model(lower_abs, upper_abs);
    }
    let c = match lower_abs.total_max(upper_abs) {
        Ok(c) => c,
        Err(e) => {
            return Err(e);
        },
    };
    let callable = Sum {  };
    let boxed: Box<dyn Callable<Vec<T>, T>> = Box::new(callable);
    assert(forall|arg: Vec<T>, res: Fallible<T>| #[trigger]
        boxed.outcome(arg, res) <==> callable.outcome(arg, res));
    let shared = Rc::new(boxed);
    assert(forall|arg: Vec<T>, res: Fallible<T>| #[trigger]
        shared.outcome(arg, res) <==> callable.outcome(arg, res));
    Transformation::new(
        VectorDomain::new(atom_domain, None),
        AllDomain::new(),
        Function { function: shared },
        SymmetricDistance::default(),
        AbsoluteDistance::default(),
        StabilityMap::new_from_constant(c),
    )
}

/// The stability map of a sum over datasets of known size, as a
/// callable: changing one row is two steps, an addition and a removal, and
/// moves the sum by at most the distance between the bounds.
pub struct HalfTimesRange<T> {
    pub range: T,
}

impl<T: Integer + InfCast<IntDistance>> Callable<IntDistance, T> for HalfTimesRange<T> {
    open spec fn outcome(&self, arg: IntDistance, out: Fallible<T>) -> bool {
        constant_outcome(self.range, arg / 2, out)
    }

    fn call(&self, arg: &IntDistance) -> (out: Fallible<T>) {
        match T::inf_cast(*arg / 2) {
            Ok(d) => d.inf_mul(&self.range),
            Err(e) => Err(e),
        }
    }
}

/// The transformation that sums vectors of `size` numbers between
/// `bounds`. Datasets that are `d_in` apart differ in `d_in / 2` rows, and
/// each moves the sum by at most the distance between the bounds.
///
/// Fails with `FailedCast` where the type does not hold `size`, else with
/// `MakeTransformation` where neither bound times `size` fits the type,
/// else with `MakeDomain` where the lower bound is greater than the upper.
pub fn make_sized_bounded_sum<T>(size: usize, bounds: (T, T)) -> (out: Fallible<
    Transformation<VectorDomain<AtomDomain<T>>, AllDomain<T>, SymmetricDistance, AbsoluteDistance<T>>,
>) where T: Integer + CheckNull + InfCast<IntDistance> + ExactIntCast<usize> + 'static
    ensures
        match out {
            Ok(sum) => {
                &&& T::exact_int_cast_spec(size) matches Some(count) && (bounds.0.alerting_mul_spec(
                    &count,
                ) is Some || bounds.1.alerting_mul_spec(&count) is Some)
                &&& bounds.0.value() <= bounds.1.value()
                &&& sum.input_domain.element_domain.bounds == Some(bounds)
                &&& !sum.input_domain.element_domain.nullable
                &&& sum.input_domain.size == Some(size)
                &&& forall|arg: Vec<T>, res: Fallible<T>| #[trigger]
                    sum.function.outcome(arg, res) <==> answers(
                        res,
                        sum_from(T::zero_spec(), arg@),
                    )
                &&& bounds.1.inf_sub_spec(&bounds.0) matches Some(range) && forall|
                    d_in: IntDistance,
                    d_out: Fallible<T>,
                | #[trigger]
                    sum.stability_map.outcome(d_in, d_out) <==> constant_outcome(
                        range,
                        d_in / 2,
                        d_out,
                    )
            },
            Err(e) => match T::exact_int_cast_spec(size) {
                None => e.variant == ErrorVariant::FailedCast,
                Some(count) => if bounds.0.alerting_mul_spec(&count) is None
                    && bounds.1.alerting_mul_spec(&count) is None {
                    e.variant == ErrorVariant::MakeTransformation
                } else {
                    e.variant == ErrorVariant::MakeDomain && bounds.0.value() > bounds.1.value()
                },
            },
        },
{
    let (lower, upper) = bounds;
    proof {
        T::model(upper, lower);
    }
    let count = match T::exact_int_cast(size) {
        Ok(count) => count,
        Err(e) => {
            return Err(e);
        },
    };
    if lower.alerting_mul(&count).is_err() && upper.alerting_mul(&count).is_err() {
        return Err(
            Error::new(
                ErrorVariant::MakeTransformation,
                "potential for overflow when computing function",
            ),
        );
    }
    let range = match upper.inf_sub(&lower) {
        Ok(range) => range,
        Err(e) => {
            return Err(e);
        },
    };
    let atom_domain = match AtomDomain::new_closed(bounds) {
        Ok(domain) => domain,
        Err(e) => {
            return Err(e);
        },
    };
    let callable = Sum {  };
    let boxed: Box<dyn Callable<Vec<T>, T>> = Box::new(callable);
    assert(forall|arg: Vec<T>, res: Fallible<T>| #[trigger]
        boxed.outcome(arg, res) <==> callable.outcome(arg, res));
    let shared = Rc::new(boxed);
    assert(forall|arg: Vec<T>, res: Fallible<T>| #[trigger]
        shared.outcome(arg, res) <==> callable.outcome(arg, res));
    let bound = HalfTimesRange { range };
    let boxed_bound: Box<dyn Callable<IntDistance, T>> = Box::new(bound);
    assert(forall|d_in: IntDistance, d_out: Fallible<T>| #[trigger]
        boxed_bound.outcome(d_in, d_out) <==> bound.outcome(d_in, d_out));
    let shared_bound = Rc::new(boxed_bound);
    assert(forall|d_in: IntDistance, d_out: Fallible<T>| #[trigger]
        shared_bound.outcome(d_in, d_out) <==> bound.outcome(d_in, d_out));
    Transformation::new(
        VectorDomain::new(atom_domain, Some(size)),
        AllDomain::new(),
        Function { function: shared },
        SymmetricDistance::default(),
        AbsoluteDistance::default(),
        StabilityMap { map: Function { function: shared_bound } },
    )
}

} // verus!
