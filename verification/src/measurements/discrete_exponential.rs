//! Private selection: of a vector of scores, release the index of one
//! that is among the best, by adding noise to every score and taking the
//! best of the noisy scores.

use crate::domains::{AllDomain, VectorDomain};
use crate::error::{Error, ErrorVariant, Fallible};
use crate::function::{Callable, Function};
use crate::maps::PrivacyMap;
use crate::measurement::Measurement;
use crate::measures::MaxDivergence;
use crate::metrics::InfDifferenceDistance;
use crate::traits::arithmetic::{converts, InfCast, InfDiv, Integer, Zero};
use crate::traits::ordering::{answers, Comparison, TotalOrd};
use crate::transformations::manipulation::{rows_succeed, vector_rows_outcome};
use std::marker::PhantomData;
use std::rc::Rc;
use vstd::prelude::*;

verus! {

/// Whether the best score is the greatest or the least.
#[derive(Clone, Copy, Debug, PartialEq, Eq, Structural)]
pub enum Optimize {
    Max,
    Min,
}

/// Types of noisy scores: how a score of type `TIA` becomes a noisy value
/// of this type. The noise comes from outside; nothing is promised of it.
pub trait NoisyScore<TIA>: Sized {
    /// The score `score`, scaled by the temperature `temperature`, with
    /// its sign turned where the least is looked for, plus a draw of noise.
    fn noisy_score(score: &TIA, temperature: &Self, optimize: &Optimize) -> Fallible<Self>;
}

/// The index that the selection gives for `scores`: going through the
/// scores from the front, a score takes over from the best so far unless
/// the best so far is greater. `None` where two scores that have to be
/// compared cannot be. Of no scores the index is 0.
pub open spec fn best_of<Q: TotalOrd>(scores: Seq<Q>) -> Option<int>
    decreases scores.len(),
{
    if scores.len() <= 1 {
        Some(0)
    } else {
        match best_of(scores.drop_last()) {
            Some(best) => match scores[best].compare(&scores.last()) {
                Some(Comparison::Greater) => Some(best),
                Some(_) => Some(scores.len() - 1),
                None => None,
            },
            None => None,
        }
    }
}

/// The index of the best of `scores`: of the greatest, and among equals
/// of the last.
pub fn select_best<Q: TotalOrd>(scores: &Vec<Q>) -> (out: Fallible<usize>)
    ensures
        match best_of(scores@) {
            Some(best) => out == Ok::<usize, Error>(best as usize) && (scores@.len() > 0 ==> 0
                <= best < scores@.len()),
            None => out matches Err(e) && e.variant == ErrorVariant::FailedFunction,
        },
{
    if scores.len() == 0 {
        return Ok(0);
    }
    let mut best: usize = 0;
    let mut i: usize = 1;
    assert(scores@.subrange(0, 1).len() == 1);
    while i < scores.len()
        invariant
            1 <= i <= scores@.len(),
            best < i,
            best_of(scores@.subrange(0, i as int)) == Some(best as int),
        decreases scores@.len() - i,
    {
        let ghost shorter = scores@.subrange(0, i as int);
        let ghost longer = scores@.subrange(0, i + 1);
        assert(longer.drop_last() == shorter);
        assert(longer.last() == scores@[i as int]);
        assert(longer[best as int] == scores@[best as int]);
        match scores[best].total_gt(&scores[i]) {
            Ok(true) => {},
            Ok(false) => {
                best = i;
            },
            Err(e) => {
                proof {
                    lemma_no_best_stays_none(scores@, i + 1);
                }
                return Err(e);
            },
        }
        i += 1;
    }
    assert(scores@.subrange(0, i as int) == scores@);
    Ok(best)
}

/// Once the selection has no answer for the first `n` scores, it has
/// none for all of them.
pub proof fn lemma_no_best_stays_none<Q: TotalOrd>(scores: Seq<Q>, n: int)
    requires
        0 <= n <= scores.len(),
        best_of(scores.subrange(0, n)) is None,
    ensures
        best_of(scores) is None,
    decreases scores.len() - n,
{
    if n == scores.len() {
        assert(scores.subrange(0, n) == scores);
    } else {
        let longer = scores.subrange(0, n + 1);
        assert(longer.drop_last() == scores.subrange(0, n));
        assert(best_of(longer) is None);
        lemma_no_best_stays_none(scores, n + 1);
    }
}

/// For the integer types of the library the selection always has an
/// answer, and it is the index of the greatest score; where several are
/// greatest, of the last of them.
pub proof fn best_is_last_greatest<Q: Integer>(scores: Seq<Q>)
    requires
        scores.len() > 0,
    ensures
        best_of(scores) matches Some(best) && {
            &&& 0 <= best < scores.len()
            &&& forall|i: int|
                0 <= i < scores.len() ==> (#[trigger] scores[i]).value() <= scores[best].value()
            &&& forall|i: int|
                best < i < scores.len() ==> (#[trigger] scores[i]).value() < scores[best].value()
        },
    decreases scores.len(),
{
    if scores.len() > 1 {
        let shorter = scores.drop_last();
        best_is_last_greatest(shorter);
        let before = best_of(shorter)->Some_0;
        Q::model(scores[before], scores.last());
        assert(shorter[before] == scores[before]);
        let best = best_of(scores)->Some_0;
        assert forall|i: int| 0 <= i < scores.len() implies (#[trigger] scores[i]).value()
            <= scores[best].value() by {
            if i < shorter.len() {
                assert(shorter[i] == scores[i]);
            }
        }
        assert forall|i: int| best < i < scores.len() implies (#[trigger] scores[i]).value()
            < scores[best].value() by {
            if i < shorter.len() {
                assert(shorter[i] == scores[i]);
            }
        }
    }
}

/// The outcomes that the noise may have on a score, as a relation.
pub open spec fn noise_outcomes<TIA, QO: NoisyScore<TIA>>(
    temperature: QO,
    optimize: Optimize,
) -> spec_fn(TIA, Fallible<QO>) -> bool {
    |score: TIA, noisy: Fallible<QO>|
        call_ensures(QO::noisy_score, (&score, &temperature, &optimize), noisy)
}

/// Whether `out` is an outcome of the selection on `scores` at the
/// temperature `temperature`: every score gets its noise, from the front,
/// and the best of the noisy scores is selected. The first failure of the
/// noise is the failure of the whole.
pub open spec fn selection_outcome<TIA, QO: NoisyScore<TIA> + TotalOrd>(
    temperature: QO,
    optimize: Optimize,
    scores: Seq<TIA>,
    out: Fallible<usize>,
) -> bool {
    exists|sampled: Fallible<Vec<QO>>| #[trigger]
        vector_rows_outcome(scores, noise_outcomes(temperature, optimize), sampled)
            && match sampled {
            Ok(noisy) => match best_of(noisy@) {
                Some(best) => out == Ok::<usize, Error>(best as usize),
                None => out matches Err(e) && e.variant == ErrorVariant::FailedFunction,
            },
            Err(e) => out == Err::<usize, Error>(e),
        }
}

/// The selection, as a callable.
#[verifier::reject_recursive_types(TIA)]
pub struct NoisyBest<TIA, QO> {
    pub temperature: QO,
    pub optimize: Optimize,
    pub scores: PhantomData<TIA>,
}

impl<TIA, QO: NoisyScore<TIA> + TotalOrd> Callable<Vec<TIA>, usize> for NoisyBest<TIA, QO> {
    open spec fn outcome(&self, arg: Vec<TIA>, out: Fallible<usize>) -> bool {
        selection_outcome(self.temperature, self.optimize, arg@, out)
    }

    fn call(&self, arg: &Vec<TIA>) -> (out: Fallible<usize>) {
        let ghost row_outcome = noise_outcomes::<TIA, QO>(self.temperature, self.optimize);
        let mut noisy: Vec<QO> = Vec::new();
        let mut i: usize = 0;
        while i < arg.len()
            invariant
                i <= arg@.len(),
                noisy@.len() == i,
                row_outcome == noise_outcomes::<TIA, QO>(self.temperature, self.optimize),
                rows_succeed(arg@, row_outcome, noisy@),
            decreases arg@.len() - i,
        {
            match QO::noisy_score(&arg[i], &self.temperature, &self.optimize) {
                Ok(value) => {
                    assert(row_outcome(arg@[i as int], Ok(value)));
                    noisy.push(value);
                },
                Err(e) => {
                    assert(row_outcome(arg@[i as int], Err(e)));
                    assert(vector_rows_outcome(arg@, row_outcome, Err::<Vec<QO>, Error>(e)));
                    return Err(e);
                },
            }
            i += 1;
        }
        assert(vector_rows_outcome(arg@, row_outcome, Ok::<Vec<QO>, Error>(noisy)));
        select_best(&noisy)
    }
}

/// Whether `out` is an outcome of the privacy map of the selection at
/// the temperature `temperature` on `d_in`: `d_in` is converted, rounding
/// up; a negative distance is refused with `InvalidDistance`; at zero the
/// loss is zero; else it is the distance over the temperature, rounded up.
pub open spec fn selection_loss<TIA, QO: InfCast<TIA> + InfDiv + Zero + TotalOrd>(
    temperature: QO,
    d_in: TIA,
    out: Fallible<QO>,
) -> bool {
    match QO::inf_cast_spec(d_in) {
        None => converts(out, None),
        Some(distance) => match distance.compare(&QO::zero_spec()) {
            Some(Comparison::Less) => out matches Err(e) && e.variant
                == ErrorVariant::InvalidDistance,
            Some(Comparison::Equal) => out == Ok::<QO, Error>(QO::zero_spec()),
            Some(Comparison::Greater) => answers(out, distance.inf_div_spec(&temperature)),
            None => out matches Err(e) && e.variant == ErrorVariant::FailedFunction,
        },
    }
}

/// The privacy map of the selection, as a callable.
#[verifier::reject_recursive_types(TIA)]
pub struct SelectionLoss<TIA, QO> {
    pub temperature: QO,
    pub distances: PhantomData<TIA>,
}

impl<TIA: Copy, QO: InfCast<TIA> + InfDiv + Zero + TotalOrd> Callable<TIA, QO> for SelectionLoss<
    TIA,
    QO,
> {
    open spec fn outcome(&self, arg: TIA, out: Fallible<QO>) -> bool {
        selection_loss(self.temperature, arg, out)
    }

    fn call(&self, arg: &TIA) -> (out: Fallible<QO>) {
        let distance = match QO::inf_cast(*arg) {
            Ok(distance) => distance,
            Err(e) => {
                return Err(e);
            },
        };
        let zero = QO::zero();
        match distance.total_cmp(&zero) {
            Ok(Comparison::Less) => Err(
                Error::new(ErrorVariant::InvalidDistance, "sensitivity must be non-negative"),
            ),
            Ok(Comparison::Equal) => Ok(zero),
            Ok(Comparison::Greater) => distance.inf_div(&self.temperature),
            Err(e) => Err(e),
        }
    }
}

/// The measurement that takes a vector of scores and releases the index
/// of one that is among the best. The higher the temperature, the more
/// noise, and the less is lost.
///
/// Fails with `MakeMeasurement` unless the temperature is greater than
/// zero.
pub fn make_base_discrete_exponential<TIA, QO>(temperature: QO, optimize: Optimize) -> (out: Fallible<
    Measurement<VectorDomain<AllDomain<TIA>>, usize, InfDifferenceDistance<TIA>, MaxDivergence<QO>>,
>) where
    TIA: Copy + 'static,
    QO: NoisyScore<TIA> + InfCast<TIA> + InfDiv + Zero + TotalOrd + Copy + 'static,

    ensures
        match out {
            Ok(selection) => {
                &&& temperature.compare(&QO::zero_spec()) == Some(Comparison::Greater)
                &&& selection.input_domain.size is None
                &&& forall|scores: Vec<TIA>, index: Fallible<usize>| #[trigger]
                    selection.function.outcome(scores, index) <==> selection_outcome(
                        temperature,
                        optimize,
                        scores@,
                        index,
                    )
                &&& forall|d_in: TIA, loss: Fallible<QO>| #[trigger]
                    selection.privacy_map.outcome(d_in, loss) <==> selection_loss(
                        temperature,
                        d_in,
                        loss,
                    )
            },
            Err(e) => {
                &&& e.variant == ErrorVariant::MakeMeasurement
                &&& temperature.compare(&QO::zero_spec()) != Some(Comparison::Greater)
            },
        },
{
    match temperature.total_cmp(&QO::zero()) {
        Ok(Comparison::Greater) => {},
        _ => {
            return Err(Error::new(ErrorVariant::MakeMeasurement, "temperature must be positive"));
        },
    }
    let selection: NoisyBest<TIA, QO> = NoisyBest { temperature, optimize, scores: PhantomData };
    let boxed: Box<dyn Callable<Vec<TIA>, usize>> = Box::new(selection);
    assert(forall|scores: Vec<TIA>, index: Fallible<usize>| #[trigger]
        boxed.outcome(scores, index) <==> selection.outcome(scores, index));
    let shared = Rc::new(boxed);
    assert(forall|scores: Vec<TIA>, index: Fallible<usize>| #[trigger]
        shared.outcome(scores, index) <==> selection.outcome(scores, index));
    let loss: SelectionLoss<TIA, QO> = SelectionLoss { temperature, distances: PhantomData };
    let boxed_loss: Box<dyn Callable<TIA, QO>> = Box::new(loss);
    assert(forall|d_in: TIA, bound: Fallible<QO>| #[trigger]
        boxed_loss.outcome(d_in, bound) <==> loss.outcome(d_in, bound));
    let shared_loss = Rc::new(boxed_loss);
    assert(forall|d_in: TIA, bound: Fallible<QO>| #[trigger]
        shared_loss.outcome(d_in, bound) <==> loss.outcome(d_in, bound));
    Measurement::new(
        VectorDomain::new(AllDomain::new(), None),
        Function { function: shared },
        InfDifferenceDistance::default(),
        MaxDivergence::default(),
        PrivacyMap { map: Function { function: shared_loss } },
    )
}

} // verus!
