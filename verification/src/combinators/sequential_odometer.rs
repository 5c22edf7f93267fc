//! The odometer that runs measurements one after the other on one
//! dataset and adds up what they cost.

use crate::combinators::odometer::{as_loss, Odometer, OdometerAnswer, OdometerQuery};
use crate::error::{Error, ErrorVariant, Fallible};
use crate::function::{Callable, Function};
use crate::interactive::{Answer, Query, Queryable};
use crate::maps::PrivacyMap;
use crate::measurement::Measurement;
use crate::measures::BasicCompositionMeasure;
use crate::spaces::{Component, Domain, Measure, Metric, MetricSpace};
use crate::traits::ordering::answers;
use crate::transformations::manipulation::{rows_succeed, vector_rows_outcome};
use std::marker::PhantomData;
use std::rc::Rc;
use vstd::prelude::*;

verus! {

/// The state of the odometer: the dataset, and the privacy maps of the
/// measurements that gave a release, in the order in which they ran.
#[verifier::reject_recursive_types(DI)]
#[verifier::reject_recursive_types(TO)]
#[verifier::reject_recursive_types(MI)]
#[verifier::reject_recursive_types(MO)]
pub struct SequentialOdometer<DI: Domain, TO, MI: Metric, MO: Measure> {
    pub data: DI::Carrier,
    pub output_measure: MO,
    pub maps: Vec<PrivacyMap<MI, MO>>,
    pub releases: PhantomData<TO>,
}

/// What a privacy map may give on `d_in`, as a relation between the map
/// and the outcome.
pub open spec fn losses_at<MI: Metric, MO: Measure>(d_in: MI::Distance) -> spec_fn(
    PrivacyMap<MI, MO>,
    Fallible<MO::Distance>,
) -> bool where MI::Distance: 'static, MO::Distance: 'static {
    |map: PrivacyMap<MI, MO>, loss: Fallible<MO::Distance>| map.outcome(d_in, loss)
}

/// Whether `answer` may be the loss so far for inputs that are `d_in`
/// apart: every map is asked, from the first, and what they give is
/// combined under the measure. The first failure of a map is the failure of
/// the whole.
pub open spec fn loss_so_far<MI: Metric, MO: BasicCompositionMeasure>(
    output_measure: MO,
    maps: Seq<PrivacyMap<MI, MO>>,
    d_in: MI::Distance,
    answer: Fallible<MO::Distance>,
) -> bool where MI::Distance: 'static, MO::Distance: 'static {
    exists|asked: Fallible<Vec<MO::Distance>>| #[trigger]
        vector_rows_outcome(maps, losses_at::<MI, MO>(d_in), asked) && match asked {
            Ok(losses) => answers(answer, output_measure.composed(losses@)),
            Err(e) => answer == Err::<MO::Distance, Error>(e),
        }
}

impl<DI, TO, MI, MO> Queryable<
    OdometerQuery<Measurement<DI, TO, MI, MO>, MI::Distance>,
    OdometerAnswer<TO, MO::Distance>,
> for SequentialOdometer<DI, TO, MI, MO> where
    DI: MetricSpace<MI>,
    TO: 'static,
    MI: Metric,
    MO: BasicCompositionMeasure,
    DI::Carrier: 'static,
    MI::Distance: 'static,
    MO::Distance: 'static,
 {
    /// A measurement runs whatever it costs; where it gives a release, its
    /// privacy map is kept. A question about the loss changes nothing.
    /// Messages between queryables are not understood.
    open spec fn transition(
        &self,
        query: Query<OdometerQuery<Measurement<DI, TO, MI, MO>, MI::Distance>>,
        next: &Self,
        answer: Fallible<Answer<OdometerAnswer<TO, MO::Distance>>>,
    ) -> bool {
        &&& next.data == self.data
        &&& next.output_measure == self.output_measure
        &&& match query {
            Query::External(OdometerQuery::Invoke(measurement)) => exists|release: Fallible<TO>| #[trigger]
                measurement.function.outcome(self.data, release) && match release {
                    Ok(value) => {
                        &&& next.maps@ == self.maps@.push(measurement.privacy_map)
                        &&& answer == Ok::<Answer<OdometerAnswer<TO, MO::Distance>>, Error>(
                            Answer::External(OdometerAnswer::Invoke(value)),
                        )
                    },
                    Err(e) => {
                        &&& next.maps@ == self.maps@
                        &&& answer == Err::<Answer<OdometerAnswer<TO, MO::Distance>>, Error>(e)
                    },
                },
            Query::External(OdometerQuery::PrivacyLoss(d_in)) => {
                &&& next.maps@ == self.maps@
                &&& exists|loss: Fallible<MO::Distance>| #[trigger]
                    loss_so_far(self.output_measure, self.maps@, *d_in, loss) && answer
                        == as_loss::<TO, MO::Distance>(loss)
            },
            Query::Internal(_) => {
                &&& next.maps@ == self.maps@
                &&& answer matches Err(e) && e.variant == ErrorVariant::FailedFunction
            },
        }
    }

    fn eval_query(
        &mut self,
        query: Query<OdometerQuery<Measurement<DI, TO, MI, MO>, MI::Distance>>,
    ) -> (answer: Fallible<Answer<OdometerAnswer<TO, MO::Distance>>>) {
        match query {
            Query::External(OdometerQuery::Invoke(measurement)) => {
                let release = measurement.invoke(&self.data);
                assert(measurement.function.outcome(self.data, release));
                match release {
                    Ok(value) => {
                        self.maps.push(measurement.privacy_map.clone());
                        Ok(Answer::External(OdometerAnswer::Invoke(value)))
                    },
                    Err(e) => Err(e),
                }
            },
            Query::External(OdometerQuery::PrivacyLoss(d_in)) => {
                let ghost row_outcome = losses_at::<MI, MO>(*d_in);
                let mut losses: Vec<MO::Distance> = Vec::new();
                let mut i: usize = 0;
                while i < self.maps.len()
                    invariant
                        i <= self.maps@.len(),
                        losses@.len() == i,
                        row_outcome == losses_at::<MI, MO>(*d_in),
                        rows_succeed(self.maps@, row_outcome, losses@),
                        *self == *old(self),
                        query matches Query::External(OdometerQuery::PrivacyLoss(d)) && d == d_in,
                    decreases self.maps@.len() - i,
                {
                    match self.maps[i].eval(d_in) {
                        Ok(loss) => {
                            assert(row_outcome(self.maps@[i as int], Ok(loss)));
                            losses.push(loss);
                        },
                        Err(e) => {
                            assert(row_outcome(self.maps@[i as int], Err(e)));
                            assert(vector_rows_outcome(
                                self.maps@,
                                row_outcome,
                                Err::<Vec<MO::Distance>, Error>(e),
                            ));
                            assert(loss_so_far(
                                old(self).output_measure,
                                old(self).maps@,
                                *d_in,
                                Err::<MO::Distance, Error>(e),
                            ));
                            return Err(e);
                        },
                    }
                    i += 1;
                }
                assert(vector_rows_outcome(
                    self.maps@,
                    row_outcome,
                    Ok::<Vec<MO::Distance>, Error>(losses),
                ));
                let total = self.output_measure.compose(losses);
                assert(loss_so_far(self.output_measure, self.maps@, *d_in, total));
                match total {
                    Ok(loss) => Ok(Answer::External(OdometerAnswer::PrivacyLoss(loss))),
                    Err(e) => Err(e),
                }
            },
            Query::Internal(_) => Err(
                Error::new(ErrorVariant::FailedFunction, "unrecognized query!"),
            ),
        }
    }
}

/// Whether `out` is the fresh state of an odometer on the dataset `data`:
/// a copy of the dataset, and no measurement run yet.
pub open spec fn fresh_odometer<DI: Domain, TO, MI: Metric, MO: Measure>(
    output_measure: MO,
    data: DI::Carrier,
    out: Fallible<SequentialOdometer<DI, TO, MI, MO>>,
) -> bool where DI::Carrier: Clone {
    out matches Ok(state) && {
        &&& cloned(data, state.data)
        &&& state.output_measure == output_measure
        &&& state.maps@.len() == 0
    }
}

/// The function of the odometer, as a callable: each call on a dataset
/// begins a count of its own.
#[verifier::reject_recursive_types(DI)]
#[verifier::reject_recursive_types(TO)]
#[verifier::reject_recursive_types(MI)]
pub struct BeginOdometer<DI, TO, MI, MO> {
    pub output_measure: MO,
    pub releases: PhantomData<(DI, TO, MI)>,
}

impl<DI, TO, MI, MO> Callable<DI::Carrier, SequentialOdometer<DI, TO, MI, MO>> for BeginOdometer<
    DI,
    TO,
    MI,
    MO,
> where DI: Domain, MI: Metric, MO: Measure, DI::Carrier: Clone {
    open spec fn outcome(
        &self,
        arg: DI::Carrier,
        out: Fallible<SequentialOdometer<DI, TO, MI, MO>>,
    ) -> bool {
        fresh_odometer(self.output_measure, arg, out)
    }

    fn call(&self, arg: &DI::Carrier) -> (out: Fallible<SequentialOdometer<DI, TO, MI, MO>>) {
        Ok(
            SequentialOdometer {
                data: arg.clone(),
                output_measure: self.output_measure.duplicate(),
                maps: Vec::new(),
                releases: PhantomData,
            },
        )
    }
}

/// An odometer that, given a dataset, releases a queryable which runs
/// every measurement it is asked, however many, and tells on request what
/// they have cost together. It enforces no budget: that is left to the
/// caller.
///
/// Fails with `MakeMeasurement` where the metric is not defined on the
/// domain.
pub fn make_sequential_odometer<DI, TO, MI, MO>(
    input_domain: DI,
    input_metric: MI,
    output_measure: MO,
) -> (out: Fallible<Odometer<DI, SequentialOdometer<DI, TO, MI, MO>, MI, MO>>) where
    DI: MetricSpace<MI> + 'static,
    TO: 'static,
    MI: Metric + 'static,
    MO: BasicCompositionMeasure + 'static,
    DI::Carrier: 'static + Clone,
    MI::Distance: 'static,
    MO::Distance: 'static,

    ensures
        match out {
            Ok(odometer) => {
                &&& odometer.wf()
                &&& odometer.input_domain == input_domain
                &&& odometer.input_metric == input_metric
                &&& odometer.output_measure == output_measure
                &&& forall|data: DI::Carrier, state: Fallible<SequentialOdometer<DI, TO, MI, MO>>| #[trigger]
                    odometer.function.outcome(data, state) <==> fresh_odometer(
                        output_measure,
                        data,
                        state,
                    )
            },
            Err(e) => {
                &&& e.variant == ErrorVariant::MakeMeasurement
                &&& !input_domain.admits(&input_metric)
            },
        },
{
    let begin: BeginOdometer<DI, TO, MI, MO> = BeginOdometer {
        output_measure: output_measure.duplicate(),
        releases: PhantomData,
    };
    let boxed: Box<dyn Callable<DI::Carrier, SequentialOdometer<DI, TO, MI, MO>>> = Box::new(begin);
    assert(forall|data: DI::Carrier, state: Fallible<SequentialOdometer<DI, TO, MI, MO>>| #[trigger]
        boxed.outcome(data, state) <==> begin.outcome(data, state));
    let shared = Rc::new(boxed);
    assert(forall|data: DI::Carrier, state: Fallible<SequentialOdometer<DI, TO, MI, MO>>| #[trigger]
        shared.outcome(data, state) <==> begin.outcome(data, state));
    Odometer::new(input_domain, Function { function: shared }, input_metric, output_measure)
}

} // verus!
