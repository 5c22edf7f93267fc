//! The transformation that compares every item of a vector with one value.

use crate::domains::{AllDomain, VectorDomain};
use crate::error::Fallible;
use crate::function::Callable;
use crate::metrics::SymmetricDistance;
use crate::transformation::Transformation;
use crate::transformations::manipulation::{make_row_by_row_with, outcomes_of, row_by_row_made};
use vstd::prelude::*;
use vstd::std_specs::cmp::PartialEqSpec;

verus! {

/// Whether a value equals a given one, as a callable.
pub struct IsEqual<T> {
    pub value: T,
}

impl<T: PartialEq> Callable<T, bool> for IsEqual<T> {
    /// The answer is that of the `==` of the type; where the type states
    /// what its `==` means, it is that.
    open spec fn outcome(&self, arg: T, out: Fallible<bool>) -> bool {
        out matches Ok(equal) && (T::obeys_eq_spec() ==> equal == arg.eq_spec(&self.value))
    }

    fn call(&self, arg: &T) -> (out: Fallible<bool>) {
        Ok(*arg == self.value)
    }
}

/// The transformation that tells of each item of a vector whether it
/// equals `value`.
pub fn make_is_equal<TIA: PartialEq + 'static>(value: TIA) -> (out: Fallible<
    Transformation<
        VectorDomain<AllDomain<TIA>>,
        VectorDomain<AllDomain<bool>>,
        SymmetricDistance,
        SymmetricDistance,
    >,
>)
    ensures
        out is Ok,
        row_by_row_made(
            VectorDomain { element_domain: AllDomain::<TIA> { carrier: std::marker::PhantomData }, size: None },
            SymmetricDistance {  },
            VectorDomain { element_domain: AllDomain::<bool> { carrier: std::marker::PhantomData }, size: None },
            outcomes_of(IsEqual { value }),
            out,
        ),
{
    make_row_by_row_with(
        VectorDomain::new(AllDomain::new(), None),
        SymmetricDistance::default(),
        VectorDomain::new(AllDomain::new(), None),
        IsEqual { value },
    )
}

} // verus!
