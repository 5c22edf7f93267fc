//! Adaptive composition: one dataset, a list of budgets declared
//! beforehand, and a queryable that runs one measurement per budget. The
//! total loss is fixed when the compositor is made; what is asked later
//! cannot change it.

use crate::error::{Error, ErrorVariant, Fallible};
use crate::function::{Callable, Function};
use crate::interactive::{Answer, InternalAnswer, InternalQuery, Query, Queryable};
use crate::maps::PrivacyMap;
use crate::measurement::Measurement;
use crate::measures::BasicCompositionMeasure;
use crate::spaces::{Domain, Measure, Metric, MetricSpace};
use crate::traits::ordering::{Comparison, TotalOrd};
use crate::transformation::check_outcome;
use std::marker::PhantomData;
use std::rc::Rc;
use vstd::prelude::*;

verus! {

/// The state of a composition: the dataset, the bound on how far it is
/// from its neighbours, the budgets that were declared, and how many of
/// them are spent. Budgets are spent in the order in which they were
/// declared.
#[verifier::reject_recursive_types(DI)]
#[verifier::reject_recursive_types(TO)]
#[verifier::reject_recursive_types(MI)]
#[verifier::reject_recursive_types(MO)]
pub struct Compositor<DI: Domain, TO, MI: Metric, MO: Measure> {
    pub data: DI::Carrier,
    pub d_in: MI::Distance,
    pub d_mids: Vec<MO::Distance>,
    pub spent: usize,
    pub concurrent: bool,
    pub releases: PhantomData<TO>,
}

impl<DI: Domain, TO, MI: Metric, MO: Measure> Compositor<DI, TO, MI, MO> {
    /// The budgets that are not spent yet, the next one first.
    pub open spec fn remaining(&self) -> Seq<MO::Distance> {
        if self.spent <= self.d_mids@.len() {
            self.d_mids@.subrange(self.spent as int, self.d_mids@.len() as int)
        } else {
            Seq::empty()
        }
    }

    /// This state with one more budget spent.
    pub open spec fn charged(&self) -> Self {
        Compositor {
            data: self.data,
            d_in: self.d_in,
            d_mids: self.d_mids,
            spent: (self.spent + 1) as usize,
            concurrent: self.concurrent,
            releases: self.releases,
        }
    }

    /// The number of budgets that are not spent yet.
    pub fn remaining_queries(&self) -> (count: usize)
        ensures
            count == self.remaining().len(),
    {
        if self.spent <= self.d_mids.len() {
            self.d_mids.len() - self.spent
        } else {
            0
        }
    }
}

/// Whether running `measurement` against the state `state` may give
/// `answer` and leave `next`.
///
/// With no budget left the query fails. Else the measurement is checked
/// against the next budget: where the check fails, or says that the budget
/// does not suffice, the query fails. Else the measurement runs on the
/// dataset, and only where it gives a release is the budget spent. A query
/// that fails leaves the state as it was.
pub open spec fn invoke_step<DI, TO, MI, MO>(
    state: Compositor<DI, TO, MI, MO>,
    measurement: Measurement<DI, TO, MI, MO>,
    next: Compositor<DI, TO, MI, MO>,
    answer: Fallible<Answer<TO>>,
) -> bool where
    DI: MetricSpace<MI>,
    TO: 'static,
    MI: Metric,
    MO: Measure,
    DI::Carrier: 'static,
    MI::Distance: 'static,
    MO::Distance: 'static + TotalOrd,
 {
    if state.remaining().len() == 0 {
        &&& next == state
        &&& answer matches Err(e) && e.variant == ErrorVariant::FailedFunction
    } else {
        exists|verdict: Fallible<bool>| #[trigger]
            check_outcome(measurement.privacy_map.map, state.d_in, state.remaining()[0], verdict)
                && match verdict {
                Err(e) => next == state && answer == Err::<Answer<TO>, Error>(e),
                Ok(false) => {
                    &&& next == state
                    &&& answer matches Err(e) && e.variant == ErrorVariant::FailedFunction
                },
                Ok(true) => exists|release: Fallible<TO>| #[trigger]
                    measurement.function.outcome(state.data, release) && match release {
                        Ok(value) => next == state.charged() && answer == Ok::<
                            Answer<TO>,
                            Error,
                        >(Answer::External(value)),
                        Err(e) => next == state && answer == Err::<Answer<TO>, Error>(e),
                    },
            }
    }
}

/// Whether the message `message` in the state `state` may be answered by
/// `answer`. The state does not change on a message.
///
/// A child may change where the compositor is concurrent, or where the
/// child is the one that was released last: its `id` is the number of
/// budgets that are left. Any other message is not understood.
pub open spec fn message_step<DI: Domain, TO, MI: Metric, MO: Measure>(
    state: Compositor<DI, TO, MI, MO>,
    message: InternalQuery,
    answer: Fallible<Answer<TO>>,
) -> bool {
    match message {
        InternalQuery::ChildChange(change) => if state.concurrent || change.id
            == state.remaining().len() {
            answer == Ok::<Answer<TO>, Error>(Answer::Internal(InternalAnswer::Approved))
        } else {
            answer matches Err(e) && e.variant == ErrorVariant::FailedFunction
        },
        InternalQuery::Other(_) => answer matches Err(e) && e.variant
            == ErrorVariant::FailedFunction,
    }
}

impl<DI, TO, MI, MO> Queryable<Measurement<DI, TO, MI, MO>, TO> for Compositor<DI, TO, MI, MO> where
    DI: MetricSpace<MI>,
    TO: 'static,
    MI: Metric,
    MO: Measure,
    DI::Carrier: 'static,
    MI::Distance: 'static,
    MO::Distance: 'static + TotalOrd,
 {
    open spec fn transition(
        &self,
        query: Query<Measurement<DI, TO, MI, MO>>,
        next: &Self,
        answer: Fallible<Answer<TO>>,
    ) -> bool {
        match query {
            Query::External(measurement) => invoke_step(*self, *measurement, *next, answer),
            Query::Internal(message) => *next == *self && message_step(*self, *message, answer),
        }
    }

    fn eval_query(&mut self, query: Query<Measurement<DI, TO, MI, MO>>) -> (answer: Fallible<
        Answer<TO>,
    >) {
        match query {
            Query::External(measurement) => {
                if self.spent >= self.d_mids.len() {
                    return Err(Error::new(ErrorVariant::FailedFunction, "out of queries"));
                }
                assert(self.remaining()[0] == self.d_mids@[self.spent as int]);
                let verdict = measurement.check(&self.d_in, &self.d_mids[self.spent]);
                match verdict {
                    Err(e) => Err(e),
                    Ok(false) => Err(
                        Error::new(ErrorVariant::FailedFunction, "insufficient budget for query"),
                    ),
                    Ok(true) => {
                        let release = measurement.invoke(&self.data);
                        match release {
                            Ok(value) => {
                                self.spent = self.spent + 1;
                                assert(*self == old(self).charged());
                                Ok(Answer::External(value))
                            },
                            Err(e) => Err(e),
                        }
                    },
                }
            },
            Query::Internal(message) => match message {
                InternalQuery::ChildChange(change) => {
                    if self.concurrent || change.id == self.remaining_queries() {
                        Ok(Answer::Internal(InternalAnswer::Approved))
                    } else {
                        Err(
                            Error::new(
                                ErrorVariant::FailedFunction,
                                "sequential compositor has received a new query",
                            ),
                        )
                    }
                },
                InternalQuery::Other(_) => Err(
                    Error::new(ErrorVariant::FailedFunction, "unrecognized query!"),
                ),
            },
        }
    }
}

/// Whether `out` is an outcome of the privacy map of a compositor that was
/// made for inputs at most `d_in` apart and whose budgets add up to
/// `d_out`: on a distance that is not greater than `d_in` the map gives
/// `d_out`, whatever was asked of the compositor; on a greater one it fails
/// with `RelationDebug`; where the two cannot be compared, with
/// `FailedFunction`.
pub open spec fn budget_outcome<QI: TotalOrd, QO>(
    d_in: QI,
    d_out: QO,
    asked: QI,
    out: Fallible<QO>,
) -> bool {
    match asked.compare(&d_in) {
        Some(Comparison::Greater) => out matches Err(e) && e.variant
            == ErrorVariant::RelationDebug,
        Some(_) => out == Ok::<QO, Error>(d_out),
        None => out matches Err(e) && e.variant == ErrorVariant::FailedFunction,
    }
}

/// The privacy map of a compositor, as a callable.
pub struct BudgetMap<QI, QO> {
    pub d_in: QI,
    pub d_out: QO,
}

impl<QI: TotalOrd, QO: Copy> Callable<QI, QO> for BudgetMap<QI, QO> {
    open spec fn outcome(&self, arg: QI, out: Fallible<QO>) -> bool {
        budget_outcome(self.d_in, self.d_out, arg, out)
    }

    fn call(&self, arg: &QI) -> (out: Fallible<QO>) {
        match arg.total_gt(&self.d_in) {
            Ok(true) => Err(
                Error::new(
                    ErrorVariant::RelationDebug,
                    "input distance must not be greater than d_in",
                ),
            ),
            Ok(false) => Ok(self.d_out),
            Err(e) => Err(e),
        }
    }
}

/// A vector with the same items.
pub fn copy_items<T: Copy>(items: &Vec<T>) -> (copy: Vec<T>)
    ensures
        copy@ == items@,
{
    let mut copy: Vec<T> = Vec::new();
    let mut i: usize = 0;
    while i < items.len()
        invariant
            i <= items@.len(),
            copy@ == items@.subrange(0, i as int),
        decreases items@.len() - i,
    {
        copy.push(items[i]);
        i += 1;
        assert(copy@ == items@.subrange(0, i as int));
    }
    assert(items@.subrange(0, items@.len() as int) == items@);
    copy
}

/// Whether `out` is the fresh state of a composition on the dataset
/// `data`: a copy of the dataset, the bound and the budgets as declared,
/// and nothing spent.
pub open spec fn fresh_state<DI: Domain, TO, MI: Metric, MO: Measure>(
    d_in: MI::Distance,
    d_mids: Seq<MO::Distance>,
    concurrent: bool,
    data: DI::Carrier,
    out: Fallible<Compositor<DI, TO, MI, MO>>,
) -> bool where DI::Carrier: Clone {
    out matches Ok(state) && {
        &&& cloned(data, state.data)
        &&& state.d_in == d_in
        &&& state.d_mids@ == d_mids
        &&& state.spent == 0
        &&& state.concurrent == concurrent
    }
}

/// The function of a compositor, as a callable: each call on a dataset
/// begins a composition of its own.
#[verifier::reject_recursive_types(DI)]
#[verifier::reject_recursive_types(TO)]
#[verifier::reject_recursive_types(MI)]
#[verifier::reject_recursive_types(MO)]
pub struct Begin<DI: Domain, TO, MI: Metric, MO: Measure> {
    pub d_in: MI::Distance,
    pub d_mids: Vec<MO::Distance>,
    pub concurrent: bool,
    pub releases: PhantomData<(DI, TO)>,
}

impl<DI, TO, MI, MO> Callable<DI::Carrier, Compositor<DI, TO, MI, MO>> for Begin<
    DI,
    TO,
    MI,
    MO,
> where
    DI: Domain,
    MI: Metric,
    MO: Measure,
    DI::Carrier: Clone,
    MI::Distance: Copy,
    MO::Distance: Copy,
 {
    open spec fn outcome(&self, arg: DI::Carrier, out: Fallible<Compositor<DI, TO, MI, MO>>) -> bool {
        fresh_state(self.d_in, self.d_mids@, self.concurrent, arg, out)
    }

    fn call(&self, arg: &DI::Carrier) -> (out: Fallible<Compositor<DI, TO, MI, MO>>) {
        Ok(
            Compositor {
                data: arg.clone(),
                d_in: self.d_in,
                d_mids: copy_items(&self.d_mids),
                spent: 0,
                concurrent: self.concurrent,
                releases: PhantomData,
            },
        )
    }
}

/// Whether `out` is what making a compositor gives. Making fails with
/// `MakeMeasurement` where no budget is declared, else with
/// `FailedFunction` where the budgets have no total, else with
/// `MakeMeasurement` where the metric is not defined on the domain. Else
/// the compositor is a measurement on `input_domain` whose function begins
/// a composition and whose privacy map gives the total of the budgets.
pub open spec fn composition_made<DI, TO, MI, MO>(
    input_domain: DI,
    input_metric: MI,
    output_measure: MO,
    d_in: MI::Distance,
    d_mids: Seq<MO::Distance>,
    concurrent: bool,
    out: Fallible<Measurement<DI, Compositor<DI, TO, MI, MO>, MI, MO>>,
) -> bool where
    DI: MetricSpace<MI>,
    TO: 'static,
    MI: Metric + 'static,
    MO: BasicCompositionMeasure + 'static,
    DI: 'static,
    DI::Carrier: 'static + Clone,
    MI::Distance: 'static + TotalOrd,
    MO::Distance: 'static,
 {
    match out {
        Ok(compositor) => {
            &&& d_mids.len() > 0
            &&& output_measure.composed(d_mids) matches Some(d_out) && forall|
                asked: MI::Distance,
                bound: Fallible<MO::Distance>,
            | #[trigger]
                compositor.privacy_map.outcome(asked, bound) <==> budget_outcome(
                    d_in,
                    d_out,
                    asked,
                    bound,
                )
            &&& compositor.wf()
            &&& compositor.input_domain == input_domain
            &&& compositor.input_metric == input_metric
            &&& compositor.output_measure == output_measure
            &&& forall|data: DI::Carrier, state: Fallible<Compositor<DI, TO, MI, MO>>| #[trigger]
                compositor.function.outcome(data, state) <==> fresh_state(
                    d_in,
                    d_mids,
                    concurrent,
                    data,
                    state,
                )
        },
        Err(e) => if d_mids.len() == 0 {
            e.variant == ErrorVariant::MakeMeasurement
        } else if output_measure.composed(d_mids) is None {
            e.variant == ErrorVariant::FailedFunction
        } else {
            e.variant == ErrorVariant::MakeMeasurement && !input_domain.admits(&input_metric)
        },
    }
}

fn make_composition<DI, TO, MI, MO>(
    input_domain: DI,
    input_metric: MI,
    output_measure: MO,
    d_in: MI::Distance,
    d_mids: Vec<MO::Distance>,
    concurrent: bool,
) -> (out: Fallible<Measurement<DI, Compositor<DI, TO, MI, MO>, MI, MO>>) where
    DI: MetricSpace<MI>,
    TO: 'static,
    MI: Metric + 'static,
    MO: BasicCompositionMeasure + 'static,
    DI: 'static,
    DI::Carrier: 'static + Clone,
    MI::Distance: 'static + TotalOrd + Copy,
    MO::Distance: 'static + TotalOrd + Copy,

    ensures
        composition_made(input_domain, input_metric, output_measure, d_in, d_mids@, concurrent, out),
{
    if d_mids.len() == 0 {
        return Err(Error::new(ErrorVariant::MakeMeasurement, "must be at least one d_out"));
    }
    let d_out = match output_measure.compose(copy_items(&d_mids)) {
        Ok(d_out) => d_out,
        Err(e) => {
            return Err(e);
        },
    };
    let begin: Begin<DI, TO, MI, MO> = Begin { d_in, d_mids, concurrent, releases: PhantomData };
    let boxed_begin: Box<dyn Callable<DI::Carrier, Compositor<DI, TO, MI, MO>>> = Box::new(begin);
    assert(forall|data: DI::Carrier, state: Fallible<Compositor<DI, TO, MI, MO>>| #[trigger]
        boxed_begin.outcome(data, state) <==> begin.outcome(data, state));
    let shared_begin = Rc::new(boxed_begin);
    assert(forall|data: DI::Carrier, state: Fallible<Compositor<DI, TO, MI, MO>>| #[trigger]
        shared_begin.outcome(data, state) <==> begin.outcome(data, state));
    let budget = BudgetMap { d_in, d_out };
    let boxed_budget: Box<dyn Callable<MI::Distance, MO::Distance>> = Box::new(budget);
    assert(forall|asked: MI::Distance, bound: Fallible<MO::Distance>| #[trigger]
        boxed_budget.outcome(asked, bound) <==> budget.outcome(asked, bound));
    let shared_budget = Rc::new(boxed_budget);
    assert(forall|asked: MI::Distance, bound: Fallible<MO::Distance>| #[trigger]
        shared_budget.outcome(asked, bound) <==> budget.outcome(asked, bound));
    Measurement::new(
        input_domain,
        Function { function: shared_begin },
        input_metric,
        output_measure,
        PrivacyMap { map: Function { function: shared_budget } },
    )
}

/// A measurement that, given a dataset, releases a queryable which runs
/// the measurements it is asked, one per budget of `d_mids`, in the order in
/// which the budgets were declared. A child that the queryable released may
/// change only while it is the last one released.
///
/// `d_in` bounds how far neighbouring datasets are apart. The privacy loss
/// of the whole is the total of `d_mids` under `output_measure`, fixed here.
pub fn make_sequential_composition<DI, TO, MI, MO>(
    input_domain: DI,
    input_metric: MI,
    output_measure: MO,
    d_in: MI::Distance,
    d_mids: Vec<MO::Distance>,
) -> (out: Fallible<Measurement<DI, Compositor<DI, TO, MI, MO>, MI, MO>>) where
    DI: MetricSpace<MI>,
    TO: 'static,
    MI: Metric + 'static,
    MO: BasicCompositionMeasure + 'static,
    DI: 'static,
    DI::Carrier: 'static + Clone,
    MI::Distance: 'static + TotalOrd + Copy,
    MO::Distance: 'static + TotalOrd + Copy,

    ensures
        composition_made(input_domain, input_metric, output_measure, d_in, d_mids@, false, out),
{
    make_composition(input_domain, input_metric, output_measure, d_in, d_mids, false)
}

/// As `make_sequential_composition`, but the children that the queryable
/// released may change in any order: each was charged for when it was
/// released, and is charged for once.
pub fn make_concurrent_composition<DI, TO, MI, MO>(
    input_domain: DI,
    input_metric: MI,
    output_measure: MO,
    d_in: MI::Distance,
    d_mids: Vec<MO::Distance>,
) -> (out: Fallible<Measurement<DI, Compositor<DI, TO, MI, MO>, MI, MO>>) where
    DI: MetricSpace<MI>,
    TO: 'static,
    MI: Metric + 'static,
    MO: BasicCompositionMeasure + 'static,
    DI: 'static,
    DI::Carrier: 'static + Clone,
    MI::Distance: 'static + TotalOrd + Copy,
    MO::Distance: 'static + TotalOrd + Copy,

    ensures
        composition_made(input_domain, input_metric, output_measure, d_in, d_mids@, true, out),
{
    make_composition(input_domain, input_metric, output_measure, d_in, d_mids, true)
}

} // verus!
