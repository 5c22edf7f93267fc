//! The measures of privacy loss that the library provides, and how losses
//! add up under each.

use crate::error::Fallible;
use crate::spaces::{Component, Measure};
use crate::traits::arithmetic::{InfAdd, Zero};
use crate::traits::ordering::answers;
use std::marker::PhantomData;
use vstd::prelude::*;
use vstd::string::StringExecFns;

verus! {

/// Pure differential privacy: the loss is one number, ε.
pub struct MaxDivergence<Q> {
    pub distance: PhantomData<Q>,
}

impl<Q> Clone for MaxDivergence<Q> {
    fn clone(&self) -> (copy: Self)
        ensures
            copy == *self,
    {
        MaxDivergence { distance: PhantomData }
    }
}

impl<Q> Default for MaxDivergence<Q> {
    fn default() -> (measure: Self) {
        MaxDivergence { distance: PhantomData }
    }
}

impl<Q> Component for MaxDivergence<Q> {
    fn duplicate(&self) -> (copy: Self) {
        MaxDivergence { distance: PhantomData }
    }

    fn matches(&self, other: &Self) -> (same: bool) {
        true
    }

    open spec fn description(&self) -> Seq<char> {
        "MaxDivergence()"@
    }

    fn describe(&self) -> (text: String) {
        String::from_str("MaxDivergence()")
    }
}

impl<Q> Measure for MaxDivergence<Q> {
    type Distance = Q;
}

/// Approximate differential privacy with a fixed δ: the loss is a pair
/// (ε, δ).
pub struct FixedSmoothedMaxDivergence<Q> {
    pub distance: PhantomData<Q>,
}

impl<Q> Clone for FixedSmoothedMaxDivergence<Q> {
    fn clone(&self) -> (copy: Self)
        ensures
            copy == *self,
    {
        FixedSmoothedMaxDivergence { distance: PhantomData }
    }
}

impl<Q> Default for FixedSmoothedMaxDivergence<Q> {
    fn default() -> (measure: Self) {
        FixedSmoothedMaxDivergence { distance: PhantomData }
    }
}

impl<Q> Component for FixedSmoothedMaxDivergence<Q> {
    fn duplicate(&self) -> (copy: Self) {
        FixedSmoothedMaxDivergence { distance: PhantomData }
    }

    fn matches(&self, other: &Self) -> (same: bool) {
        true
    }

    open spec fn description(&self) -> Seq<char> {
        "FixedSmoothedMaxDivergence()"@
    }

    fn describe(&self) -> (text: String) {
        String::from_str("FixedSmoothedMaxDivergence()")
    }
}

impl<Q> Measure for FixedSmoothedMaxDivergence<Q> {
    type Distance = (Q, Q);
}

/// `start` with the items of `items` added to it one by one from the front,
/// each sum rounded up; `None` once a sum does not exist.
pub open spec fn sum_from<Q: InfAdd>(start: Q, items: Seq<Q>) -> Option<Q>
    decreases items.len(),
{
    if items.len() == 0 {
        Some(start)
    } else {
        match start.inf_add_spec(&items[0]) {
            Some(sum) => sum_from(sum, items.drop_first()),
            None => None,
        }
    }
}

/// The first parts of a sequence of pairs.
pub open spec fn firsts<Q>(pairs: Seq<(Q, Q)>) -> Seq<Q> {
    Seq::new(pairs.len(), |i: int| pairs[i].0)
}

/// The second parts of a sequence of pairs.
pub open spec fn seconds<Q>(pairs: Seq<(Q, Q)>) -> Seq<Q> {
    Seq::new(pairs.len(), |i: int| pairs[i].1)
}

/// Adds up a vector with `inf_add`, from zero and from the front.
pub fn sum_up<Q: InfAdd + Zero>(items: &Vec<Q>) -> (out: Fallible<Q>)
    ensures
        answers(out, sum_from(Q::zero_spec(), items@)),
{
    let mut total = Q::zero();
    let mut i: usize = 0;
    assert(items@.subrange(0, items@.len() as int) == items@);
    while i < items.len()
        invariant
            i <= items@.len(),
            sum_from(Q::zero_spec(), items@) == sum_from(
                total,
                items@.subrange(i as int, items@.len() as int),
            ),
        decreases items@.len() - i,
    {
        let ghost rest = items@.subrange(i as int, items@.len() as int);
        assert(rest[0] == items@[i as int]);
        assert(rest.drop_first() == items@.subrange(i + 1, items@.len() as int));
        match total.inf_add(&items[i]) {
            Ok(sum) => {
                total = sum;
            },
            Err(e) => {
                return Err(e);
            },
        }
        i += 1;
    }
    assert(items@.subrange(i as int, items@.len() as int).len() == 0);
    Ok(total)
}

/// Measures under which the loss of several releases is bounded by a
/// combination of the single losses that can be computed beforehand.
pub trait BasicCompositionMeasure: Measure {
    /// The loss of releases whose single losses are `d_i`, where it
    /// exists. A type that does not say otherwise has none.
    open spec fn composed(&self, d_i: Seq<Self::Distance>) -> Option<Self::Distance> {
        None
    }

    /// Bounds the loss of releases whose single losses are `d_i`.
    fn compose(&self, d_i: Vec<Self::Distance>) -> (out: Fallible<Self::Distance>)
        ensures
            answers(out, self.composed(d_i@)),
    ;
}

/// Under pure differential privacy the losses add up.
impl<Q: InfAdd + Zero> BasicCompositionMeasure for MaxDivergence<Q> {
    open spec fn composed(&self, d_i: Seq<Q>) -> Option<Q> {
        sum_from(Q::zero_spec(), d_i)
    }

    fn compose(&self, d_i: Vec<Q>) -> (out: Fallible<Q>) {
        sum_up(&d_i)
    }
}

/// Under approximate differential privacy the ε add up, and so do the δ.
impl<Q: InfAdd + Zero + Copy> BasicCompositionMeasure for FixedSmoothedMaxDivergence<Q> {
    open spec fn composed(&self, d_i: Seq<(Q, Q)>) -> Option<(Q, Q)> {
        match sum_from(Q::zero_spec(), firsts(d_i)) {
            Some(epsilon) => match sum_from(Q::zero_spec(), seconds(d_i)) {
                Some(delta) => Some((epsilon, delta)),
                None => None,
            },
            None => None,
        }
    }

    fn compose(&self, d_i: Vec<(Q, Q)>) -> (out: Fallible<(Q, Q)>) {
        let mut epsilons: Vec<Q> = Vec::new();
        let mut deltas: Vec<Q> = Vec::new();
        let mut i: usize = 0;
        while i < d_i.len()
            invariant
                i <= d_i@.len(),
                epsilons@ == firsts(d_i@).subrange(0, i as int),
                deltas@ == seconds(d_i@).subrange(0, i as int),
            decreases d_i@.len() - i,
        {
            epsilons.push(d_i[i].0);
            deltas.push(d_i[i].1);
            i += 1;
            assert(epsilons@ == firsts(d_i@).subrange(0, i as int));
            assert(deltas@ == seconds(d_i@).subrange(0, i as int));
        }
        assert(epsilons@ == firsts(d_i@));
        assert(deltas@ == seconds(d_i@));
        match sum_up(&epsilons) {
            Ok(epsilon) => match sum_up(&deltas) {
                Ok(delta) => Ok((epsilon, delta)),
                Err(e) => Err(e),
            },
            Err(e) => Err(e),
        }
    }
}

} // verus!
