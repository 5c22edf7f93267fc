//! Odometers: releases that run whatever measurement they are asked, and
//! report on request how much privacy has been lost so far. They keep
//! count; they do not refuse.

use crate::combinators::chain::mismatch_error;
use crate::error::{Error, ErrorVariant, Fallible};
use crate::function::{chain_outcome, Callable, Function};
use crate::interactive::{Answer, Query, Queryable};
use crate::maps::StabilityMap;
use crate::spaces::{Component, Domain, Measure, Metric, MetricSpace};
use crate::transformation::Transformation;
use std::rc::Rc;
use vstd::prelude::*;

verus! {

/// What an odometer's queryable is asked.
pub enum OdometerQuery<Q, U> {
    /// Run this.
    Invoke(Q),
    /// How much is lost so far, for inputs this far apart?
    PrivacyLoss(U),
}

/// What an odometer's queryable answers.
pub enum OdometerAnswer<A, U> {
    /// The release.
    Invoke(A),
    /// The loss so far.
    PrivacyLoss(U),
}

/// A computation that releases a queryable which keeps count of the
/// privacy that its answers have cost.
#[verifier::reject_recursive_types(DI)]
#[verifier::reject_recursive_types(TO)]
#[verifier::reject_recursive_types(MI)]
#[verifier::reject_recursive_types(MO)]
pub struct Odometer<DI: Domain, TO, MI: Metric, MO: Measure> {
    pub input_domain: DI,
    pub function: Function<DI::Carrier, TO>,
    pub input_metric: MI,
    pub output_measure: MO,
}

impl<DI: Domain, TO, MI: Metric, MO: Measure> Clone for Odometer<DI, TO, MI, MO> {
    fn clone(&self) -> (copy: Self)
        ensures
            copy == *self,
    {
        Odometer {
            input_domain: self.input_domain.duplicate(),
            function: self.function.clone(),
            input_metric: self.input_metric.duplicate(),
            output_measure: self.output_measure.duplicate(),
        }
    }
}

impl<DI, TO, MI, MO> Odometer<DI, TO, MI, MO> where
    DI: MetricSpace<MI>,
    TO: 'static,
    MI: Metric,
    MO: Measure,
    DI::Carrier: 'static,
 {
    /// The input metric is defined on the input domain.
    pub open spec fn wf(&self) -> bool {
        self.input_domain.admits(&self.input_metric)
    }

    /// Puts an odometer together. Fails with `MakeMeasurement` where the
    /// input metric is not defined on the input domain.
    pub fn new(input_domain: DI, function: Function<DI::Carrier, TO>, input_metric: MI, output_measure: MO) -> (out:
        Fallible<Self>)
        ensures
            match out {
                Ok(odometer) => {
                    &&& odometer.wf()
                    &&& odometer.input_domain == input_domain
                    &&& odometer.function == function
                    &&& odometer.input_metric == input_metric
                    &&& odometer.output_measure == output_measure
                },
                Err(e) => {
                    &&& e.variant == ErrorVariant::MakeMeasurement
                    &&& !input_domain.admits(&input_metric)
                },
            },
    {
        if !input_domain.check_space(&input_metric) {
            return Err(
                Error::new(
                    ErrorVariant::MakeMeasurement,
                    "the input metric is not defined on the input domain",
                ),
            );
        }
        Ok(Odometer { input_domain, function, input_metric, output_measure })
    }

    /// Runs the function on `arg`: releases a queryable.
    pub fn invoke(&self, arg: &DI::Carrier) -> (out: Fallible<TO>)
        ensures
            self.function.outcome(*arg, out),
    {
        self.function.eval(arg)
    }
}

/// Whether `answer` is what the user gets of the raw answer `raw` to an
/// `Invoke`: the release, the failure, or `FailedFunction` where the
/// answer is of another shape.
pub open spec fn invoke_part<A, V>(
    raw: Fallible<Answer<OdometerAnswer<A, V>>>,
    answer: Fallible<A>,
) -> bool {
    match raw {
        Ok(Answer::External(OdometerAnswer::Invoke(a))) => answer == Ok::<A, Error>(a),
        Ok(_) => answer matches Err(e) && e.variant == ErrorVariant::FailedFunction,
        Err(e) => answer == Err::<A, Error>(e),
    }
}

/// Whether `answer` is what the user gets of the raw answer `raw` to a
/// `PrivacyLoss`: the loss, the failure, or `FailedFunction` where the answer is of
/// another shape.
pub open spec fn map_part<A, V>(
    raw: Fallible<Answer<OdometerAnswer<A, V>>>,
    answer: Fallible<V>,
) -> bool {
    match raw {
        Ok(Answer::External(OdometerAnswer::PrivacyLoss(d))) => answer == Ok::<V, Error>(d),
        Ok(_) => answer matches Err(e) && e.variant == ErrorVariant::FailedFunction,
        Err(e) => answer == Err::<V, Error>(e),
    }
}

/// Asks an odometer's queryable to run `query`.
pub fn eval_invoke<QB, Q, A, U, V>(queryable: &mut QB, query: Q) -> (answer: Fallible<A>) where
    QB: Queryable<OdometerQuery<Q, U>, OdometerAnswer<A, V>>,

    ensures
        exists|raw: Fallible<Answer<OdometerAnswer<A, V>>>| #[trigger]
            old(queryable).transition(
                Query::External(&OdometerQuery::Invoke(query)),
                final(queryable),
                raw,
            ) && invoke_part(raw, answer),
{
    let asked = OdometerQuery::Invoke(query);
    match queryable.eval_query(Query::External(&asked)) {
        Ok(Answer::External(OdometerAnswer::Invoke(a))) => Ok(a),
        Ok(_) => Err(Error::new(ErrorVariant::FailedFunction, "return type is not an answer")),
        Err(e) => Err(e),
    }
}

/// Asks an odometer's queryable how much is lost so far for inputs that
/// are `d_in` apart.
pub fn eval_map<QB, Q, A, U, V>(queryable: &mut QB, d_in: U) -> (answer: Fallible<V>) where
    QB: Queryable<OdometerQuery<Q, U>, OdometerAnswer<A, V>>,

    ensures
        exists|raw: Fallible<Answer<OdometerAnswer<A, V>>>| #[trigger]
            old(queryable).transition(
                Query::External(&OdometerQuery::PrivacyLoss(d_in)),
                final(queryable),
                raw,
            ) && map_part(raw, answer),
{
    let asked = OdometerQuery::PrivacyLoss(d_in);
    match queryable.eval_query(Query::External(&asked)) {
        Ok(Answer::External(OdometerAnswer::PrivacyLoss(d))) => Ok(d),
        Ok(_) => Err(Error::new(ErrorVariant::FailedFunction, "return type is not a d_out")),
        Err(e) => Err(e),
    }
}

/// The external answer that wraps a release, or the failure.
pub open spec fn as_release<A, V>(answer: Fallible<A>) -> Fallible<Answer<OdometerAnswer<A, V>>> {
    match answer {
        Ok(a) => Ok(Answer::External(OdometerAnswer::Invoke(a))),
        Err(e) => Err(e),
    }
}

/// The external answer that wraps a loss, or the failure.
pub open spec fn as_loss<A, V>(answer: Fallible<V>) -> Fallible<Answer<OdometerAnswer<A, V>>> {
    match answer {
        Ok(d) => Ok(Answer::External(OdometerAnswer::PrivacyLoss(d))),
        Err(e) => Err(e),
    }
}

/// The queryable of an odometer behind a transformation. Queries to run
/// something go to the inner queryable as they are. A question about the
/// loss is asked of the inner queryable for the distance that the
/// transformation's stability map gives. Messages between queryables pass
/// through.
#[verifier::reject_recursive_types(MI)]
#[verifier::reject_recursive_types(MX)]
pub struct AfterTransformation<QB, MI: Metric, MX: Metric> {
    pub inner: QB,
    pub stability_map: StabilityMap<MI, MX>,
}

impl<Q, A, V, QB, MI, MX> Queryable<
    OdometerQuery<Q, MI::Distance>,
    OdometerAnswer<A, V>,
> for AfterTransformation<QB, MI, MX> where
    Q: Clone,
    QB: Queryable<OdometerQuery<Q, MX::Distance>, OdometerAnswer<A, V>>,
    MI: Metric,
    MX: Metric,
    MI::Distance: 'static,
    MX::Distance: 'static,
 {
    open spec fn transition(
        &self,
        query: Query<OdometerQuery<Q, MI::Distance>>,
        next: &Self,
        answer: Fallible<Answer<OdometerAnswer<A, V>>>,
    ) -> bool {
        &&& next.stability_map == self.stability_map
        &&& match query {
            Query::External(OdometerQuery::Invoke(q)) => exists|
                copy: Q,
                raw: Fallible<Answer<OdometerAnswer<A, V>>>,
                release: Fallible<A>,
            |
                {
                    &&& cloned(*q, copy)
                    &&& #[trigger] self.inner.transition(
                        Query::External(&OdometerQuery::Invoke(copy)),
                        &next.inner,
                        raw,
                    )
                    &&& #[trigger] invoke_part(raw, release)
                    &&& answer == as_release::<A, V>(release)
                },
            Query::External(OdometerQuery::PrivacyLoss(d_in)) => {
                ||| exists|e: Error| #[trigger]
                    self.stability_map.outcome(*d_in, Err(e)) && next.inner == self.inner && answer
                        == Err::<Answer<OdometerAnswer<A, V>>, Error>(e)
                ||| exists|
                    d_mid: MX::Distance,
                    raw: Fallible<Answer<OdometerAnswer<A, V>>>,
                    loss: Fallible<V>,
                |
                    {
                        &&& self.stability_map.outcome(*d_in, Ok(d_mid))
                        &&& #[trigger] self.inner.transition(
                            Query::External(&OdometerQuery::PrivacyLoss(d_mid)),
                            &next.inner,
                            raw,
                        )
                        &&& #[trigger] map_part(raw, loss)
                        &&& answer == as_loss::<A, V>(loss)
                    }
            },
            Query::Internal(message) => self.inner.transition(
                Query::Internal(message),
                &next.inner,
                answer,
            ),
        }
    }

    fn eval_query(&mut self, query: Query<OdometerQuery<Q, MI::Distance>>) -> (answer: Fallible<
        Answer<OdometerAnswer<A, V>>,
    >) {
        match query {
            Query::External(OdometerQuery::Invoke(q)) => {
                let copy = q.clone();
                let release = eval_invoke(&mut self.inner, copy);
                proof {
                    let raw = choose|raw: Fallible<Answer<OdometerAnswer<A, V>>>| #[trigger]
                        old(self).inner.transition(
                            Query::External(&OdometerQuery::Invoke(copy)),
                            &self.inner,
                            raw,
                        ) && invoke_part(raw, release);
                    assert(old(self).inner.transition(
                        Query::External(&OdometerQuery::Invoke(copy)),
                        &self.inner,
                        raw,
                    ));
                    assert(invoke_part(raw, release));
                }
                match release {
                    Ok(a) => Ok(Answer::External(OdometerAnswer::Invoke(a))),
                    Err(e) => Err(e),
                }
            },
            Query::External(OdometerQuery::PrivacyLoss(d_in)) => {
                match self.stability_map.eval(d_in) {
                    Ok(d_mid) => {
                        let loss = eval_map(&mut self.inner, d_mid);
                        proof {
                            let raw = choose|raw: Fallible<Answer<OdometerAnswer<A, V>>>| #[trigger]
                                old(self).inner.transition(
                                    Query::External(&OdometerQuery::PrivacyLoss(d_mid)),
                                    &self.inner,
                                    raw,
                                ) && map_part(raw, loss);
                            assert(old(self).inner.transition(
                                Query::External(&OdometerQuery::PrivacyLoss(d_mid)),
                                &self.inner,
                                raw,
                            ));
                            assert(map_part(raw, loss));
                        }
                        match loss {
                            Ok(d) => Ok(Answer::External(OdometerAnswer::PrivacyLoss(d))),
                            Err(e) => Err(e),
                        }
                    },
                    Err(e) => Err(e),
                }
            },
            Query::Internal(message) => self.inner.eval_query(Query::Internal(message)),
        }
    }
}

/// The queryable of an odometer whose releases are worked on further.
/// What the inner queryable releases goes through the function; questions
/// about the loss and messages between queryables go to the inner
/// queryable as they are.
#[verifier::reject_recursive_types(A1)]
#[verifier::reject_recursive_types(A2)]
pub struct Postprocessed<QB, A1, A2> {
    pub inner: QB,
    pub function: Function<A1, A2>,
}

impl<Q, U, V, A1, A2, QB> Queryable<OdometerQuery<Q, U>, OdometerAnswer<A2, V>> for Postprocessed<
    QB,
    A1,
    A2,
> where
    Q: Clone,
    U: Clone,
    A1: 'static,
    A2: 'static,
    QB: Queryable<OdometerQuery<Q, U>, OdometerAnswer<A1, V>>,
 {
    open spec fn transition(
        &self,
        query: Query<OdometerQuery<Q, U>>,
        next: &Self,
        answer: Fallible<Answer<OdometerAnswer<A2, V>>>,
    ) -> bool {
        &&& next.function == self.function
        &&& match query {
            Query::External(OdometerQuery::Invoke(q)) => exists|
                copy: Q,
                raw: Fallible<Answer<OdometerAnswer<A1, V>>>,
                release: Fallible<A1>,
            |
                {
                    &&& cloned(*q, copy)
                    &&& #[trigger] self.inner.transition(
                        Query::External(&OdometerQuery::Invoke(copy)),
                        &next.inner,
                        raw,
                    )
                    &&& #[trigger] invoke_part(raw, release)
                    &&& match release {
                        Ok(a) => exists|worked: Fallible<A2>| #[trigger]
                            self.function.outcome(a, worked) && answer == as_release::<A2, V>(
                                worked,
                            ),
                        Err(e) => answer == Err::<Answer<OdometerAnswer<A2, V>>, Error>(e),
                    }
                },
            Query::External(OdometerQuery::PrivacyLoss(d_in)) => exists|
                copy: U,
                raw: Fallible<Answer<OdometerAnswer<A1, V>>>,
                loss: Fallible<V>,
            |
                {
                    &&& cloned(*d_in, copy)
                    &&& #[trigger] self.inner.transition(
                        Query::External(&OdometerQuery::PrivacyLoss(copy)),
                        &next.inner,
                        raw,
                    )
                    &&& #[trigger] map_part(raw, loss)
                    &&& answer == as_loss::<A2, V>(loss)
                },
            Query::Internal(message) => exists|raw: Fallible<Answer<OdometerAnswer<A1, V>>>| #[trigger]
                self.inner.transition(Query::Internal(message), &next.inner, raw) && match raw {
                    Ok(Answer::Internal(a)) => answer == Ok::<
                        Answer<OdometerAnswer<A2, V>>,
                        Error,
                    >(Answer::Internal(a)),
                    Ok(Answer::External(_)) => answer matches Err(e) && e.variant
                        == ErrorVariant::FailedCast,
                    Err(e) => answer == Err::<Answer<OdometerAnswer<A2, V>>, Error>(e),
                },
        }
    }

    fn eval_query(&mut self, query: Query<OdometerQuery<Q, U>>) -> (answer: Fallible<
        Answer<OdometerAnswer<A2, V>>,
    >) {
        match query {
            Query::External(OdometerQuery::Invoke(q)) => {
                let copy = q.clone();
                let release = eval_invoke(&mut self.inner, copy);
                proof {
                    let raw = choose|raw: Fallible<Answer<OdometerAnswer<A1, V>>>| #[trigger]
                        old(self).inner.transition(
                            Query::External(&OdometerQuery::Invoke(copy)),
                            &self.inner,
                            raw,
                        ) && invoke_part(raw, release);
                    assert(old(self).inner.transition(
                        Query::External(&OdometerQuery::Invoke(copy)),
                        &self.inner,
                        raw,
                    ));
                    assert(invoke_part(raw, release));
                }
                match release {
                    Ok(a) => {
                        let worked = self.function.eval(&a);
                        assert(self.function.outcome(a, worked));
                        match worked {
                            Ok(b) => Ok(Answer::External(OdometerAnswer::Invoke(b))),
                            Err(e) => Err(e),
                        }
                    },
                    Err(e) => Err(e),
                }
            },
            Query::External(OdometerQuery::PrivacyLoss(d_in)) => {
                let copy = d_in.clone();
                let loss = eval_map(&mut self.inner, copy);
                proof {
                    let raw = choose|raw: Fallible<Answer<OdometerAnswer<A1, V>>>| #[trigger]
                        old(self).inner.transition(
                            Query::External(&OdometerQuery::PrivacyLoss(copy)),
                            &self.inner,
                            raw,
                        ) && map_part(raw, loss);
                    assert(old(self).inner.transition(
                        Query::External(&OdometerQuery::PrivacyLoss(copy)),
                        &self.inner,
                        raw,
                    ));
                    assert(map_part(raw, loss));
                }
                match loss {
                    Ok(d) => Ok(Answer::External(OdometerAnswer::PrivacyLoss(d))),
                    Err(e) => Err(e),
                }
            },
            Query::Internal(message) => {
                let raw = self.inner.eval_query(Query::Internal(message));
                assert(old(self).inner.transition(Query::Internal(message), &self.inner, raw));
                match raw {
                    Ok(Answer::Internal(a)) => Ok(Answer::Internal(a)),
                    Ok(Answer::External(_)) => Err(
                        Error::new(ErrorVariant::FailedCast, "expected internal answer"),
                    ),
                    Err(e) => Err(e),
                }
            },
        }
    }
}

/// Whether `out` is what the function of an odometer behind a
/// transformation gives on `arg`: the failure of the transformation or of
/// the odometer, or the queryable that the odometer released on the
/// transformed data, behind the stability map.
pub open spec fn behind_transformation<TI, TX, QB, MI: Metric, MX: Metric>(
    odometer_function: Function<TX, QB>,
    transformation_function: Function<TI, TX>,
    stability_map: StabilityMap<MI, MX>,
    arg: TI,
    out: Fallible<AfterTransformation<QB, MI, MX>>,
) -> bool {
    exists|released: Fallible<QB>| #[trigger]
        chain_outcome(odometer_function, transformation_function, arg, released) && out
            == match released {
            Ok(inner) => Ok::<AfterTransformation<QB, MI, MX>, Error>(
                AfterTransformation { inner, stability_map },
            ),
            Err(e) => Err::<AfterTransformation<QB, MI, MX>, Error>(e),
        }
}

/// The function of an odometer behind a transformation, as a callable.
#[verifier::reject_recursive_types(TI)]
#[verifier::reject_recursive_types(TX)]
#[verifier::reject_recursive_types(QB)]
#[verifier::reject_recursive_types(MI)]
#[verifier::reject_recursive_types(MX)]
pub struct BeginAfterTransformation<TI, TX, QB, MI: Metric, MX: Metric> {
    pub odometer_function: Function<TX, QB>,
    pub transformation_function: Function<TI, TX>,
    pub stability_map: StabilityMap<MI, MX>,
}

impl<TI, TX, QB, MI, MX> Callable<TI, AfterTransformation<QB, MI, MX>> for BeginAfterTransformation<
    TI,
    TX,
    QB,
    MI,
    MX,
> where TI: 'static, TX: 'static, QB: 'static, MI: Metric, MX: Metric {
    open spec fn outcome(&self, arg: TI, out: Fallible<AfterTransformation<QB, MI, MX>>) -> bool {
        behind_transformation(
            self.odometer_function,
            self.transformation_function,
            self.stability_map,
            arg,
            out,
        )
    }

    fn call(&self, arg: &TI) -> (out: Fallible<AfterTransformation<QB, MI, MX>>) {
        match self.transformation_function.eval(arg) {
            Ok(mid) => {
                let released = self.odometer_function.eval(&mid);
                assert(chain_outcome(
                    self.odometer_function,
                    self.transformation_function,
                    *arg,
                    released,
                ));
                match released {
                    Ok(inner) => Ok(
                        AfterTransformation { inner, stability_map: self.stability_map.clone() },
                    ),
                    Err(e) => Err(e),
                }
            },
            Err(e) => {
                assert(chain_outcome(
                    self.odometer_function,
                    self.transformation_function,
                    *arg,
                    Err::<QB, Error>(e),
                ));
                Err(e)
            },
        }
    }
}

/// The chain `odometer1 ∘ transformation0`: an odometer on the input
/// domain of the transformation. Given a dataset it transforms it, lets
/// `odometer1` release a queryable on the result, and puts that queryable
/// behind the stability map of the transformation.
///
/// Fails with `DomainMismatch` where the output domain of
/// `transformation0` is not the input domain of `odometer1`, else with
/// `MetricMismatch` where the metrics between them differ, else with
/// `MakeMeasurement` where the input metric is not defined on the input
/// domain.
pub fn make_chain_ot<DI, DX, QB, MI, MX, MO>(
    odometer1: &Odometer<DX, QB, MX, MO>,
    transformation0: &Transformation<DI, DX, MI, MX>,
) -> (out: Fallible<Odometer<DI, AfterTransformation<QB, MI, MX>, MI, MO>>) where
    DI: MetricSpace<MI>,
    DX: MetricSpace<MX>,
    QB: 'static,
    MI: Metric + 'static,
    MX: Metric + 'static,
    MO: Measure,
    DI::Carrier: 'static,
    DX::Carrier: 'static,
    MI::Distance: 'static,
    MX::Distance: 'static,

    ensures
        match out {
            Ok(chain) => {
                &&& transformation0.output_domain == odometer1.input_domain
                &&& transformation0.output_metric == odometer1.input_metric
                &&& chain.wf()
                &&& chain.input_domain == transformation0.input_domain
                &&& chain.input_metric == transformation0.input_metric
                &&& chain.output_measure == odometer1.output_measure
                &&& forall|arg: DI::Carrier, res: Fallible<AfterTransformation<QB, MI, MX>>| #[trigger]
                    chain.function.outcome(arg, res) <==> behind_transformation(
                        odometer1.function,
                        transformation0.function,
                        transformation0.stability_map,
                        arg,
                        res,
                    )
            },
            Err(e) => if transformation0.output_domain != odometer1.input_domain {
                e.variant == ErrorVariant::DomainMismatch
            } else if transformation0.output_metric != odometer1.input_metric {
                e.variant == ErrorVariant::MetricMismatch
            } else {
                &&& e.variant == ErrorVariant::MakeMeasurement
                &&& !transformation0.input_domain.admits(&transformation0.input_metric)
            },
        },
{
    if !transformation0.output_domain.matches(&odometer1.input_domain) {
        return Err(
            mismatch_error(
                ErrorVariant::DomainMismatch,
                &transformation0.output_domain,
                &odometer1.input_domain,
            ),
        );
    }
    if !transformation0.output_metric.matches(&odometer1.input_metric) {
        return Err(
            mismatch_error(
                ErrorVariant::MetricMismatch,
                &transformation0.output_metric,
                &odometer1.input_metric,
            ),
        );
    }
    let begin = BeginAfterTransformation {
        odometer_function: odometer1.function.clone(),
        transformation_function: transformation0.function.clone(),
        stability_map: transformation0.stability_map.clone(),
    };
    let boxed: Box<dyn Callable<DI::Carrier, AfterTransformation<QB, MI, MX>>> = Box::new(begin);
    assert(forall|arg: DI::Carrier, res: Fallible<AfterTransformation<QB, MI, MX>>| #[trigger]
        boxed.outcome(arg, res) <==> begin.outcome(arg, res));
    let shared = Rc::new(boxed);
    assert(forall|arg: DI::Carrier, res: Fallible<AfterTransformation<QB, MI, MX>>| #[trigger]
        shared.outcome(arg, res) <==> begin.outcome(arg, res));
    Odometer::new(
        transformation0.input_domain.duplicate(),
        Function { function: shared },
        transformation0.input_metric.duplicate(),
        odometer1.output_measure.duplicate(),
    )
}

/// Whether `out` is what the function of a postprocessed odometer gives
/// on `arg`: the failure of the odometer, or the queryable that it
/// released, with `function` to work on what that queryable releases.
pub open spec fn behind_function<TI, QB, A1, A2>(
    odometer_function: Function<TI, QB>,
    function: Function<A1, A2>,
    arg: TI,
    out: Fallible<Postprocessed<QB, A1, A2>>,
) -> bool where TI: 'static, QB: 'static {
    exists|released: Fallible<QB>| #[trigger]
        odometer_function.outcome(arg, released) && out == match released {
            Ok(inner) => Ok::<Postprocessed<QB, A1, A2>, Error>(Postprocessed { inner, function }),
            Err(e) => Err::<Postprocessed<QB, A1, A2>, Error>(e),
        }
}

/// The function of a postprocessed odometer, as a callable.
#[verifier::reject_recursive_types(TI)]
#[verifier::reject_recursive_types(QB)]
#[verifier::reject_recursive_types(A1)]
#[verifier::reject_recursive_types(A2)]
pub struct BeginPostprocessed<TI, QB, A1, A2> {
    pub odometer_function: Function<TI, QB>,
    pub function: Function<A1, A2>,
}

impl<TI, QB, A1, A2> Callable<TI, Postprocessed<QB, A1, A2>> for BeginPostprocessed<
    TI,
    QB,
    A1,
    A2,
> where TI: 'static, QB: 'static, A1: 'static, A2: 'static {
    open spec fn outcome(&self, arg: TI, out: Fallible<Postprocessed<QB, A1, A2>>) -> bool {
        behind_function(self.odometer_function, self.function, arg, out)
    }

    fn call(&self, arg: &TI) -> (out: Fallible<Postprocessed<QB, A1, A2>>) {
        let released = self.odometer_function.eval(arg);
        assert(self.odometer_function.outcome(*arg, released));
        match released {
            Ok(inner) => Ok(Postprocessed { inner, function: self.function.clone() }),
            Err(e) => Err(e),
        }
    }
}

/// The chain `function1 ∘ odometer0`: an odometer whose queryables pass
/// what they release through `function1`. Working on a release costs no
/// privacy: questions about the loss are answered by the queryable of
/// `odometer0`.
///
/// Fails with `MakeMeasurement` where the input metric is not defined on
/// the input domain.
pub fn make_chain_po<DI, QB, A1, A2, MI, MO>(
    function1: &Function<A1, A2>,
    odometer0: &Odometer<DI, QB, MI, MO>,
) -> (out: Fallible<Odometer<DI, Postprocessed<QB, A1, A2>, MI, MO>>) where
    DI: MetricSpace<MI>,
    QB: 'static,
    A1: 'static,
    A2: 'static,
    MI: Metric,
    MO: Measure,
    DI::Carrier: 'static,

    ensures
        match out {
            Ok(chain) => {
                &&& chain.wf()
                &&& chain.input_domain == odometer0.input_domain
                &&& chain.input_metric == odometer0.input_metric
                &&& chain.output_measure == odometer0.output_measure
                &&& forall|arg: DI::Carrier, res: Fallible<Postprocessed<QB, A1, A2>>| #[trigger]
                    chain.function.outcome(arg, res) <==> behind_function(
                        odometer0.function,
                        *function1,
                        arg,
                        res,
                    )
            },
            Err(e) => {
                &&& e.variant == ErrorVariant::MakeMeasurement
                &&& !odometer0.input_domain.admits(&odometer0.input_metric)
            },
        },
{
    let begin = BeginPostprocessed {
        odometer_function: odometer0.function.clone(),
        function: function1.clone(),
    };
    let boxed: Box<dyn Callable<DI::Carrier, Postprocessed<QB, A1, A2>>> = Box::new(begin);
    assert(forall|arg: DI::Carrier, res: Fallible<Postprocessed<QB, A1, A2>>| #[trigger]
        boxed.outcome(arg, res) <==> begin.outcome(arg, res));
    let shared = Rc::new(boxed);
    assert(forall|arg: DI::Carrier, res: Fallible<Postprocessed<QB, A1, A2>>| #[trigger]
        shared.outcome(arg, res) <==> begin.outcome(arg, res));
    Odometer::new(
        odometer0.input_domain.duplicate(),
        Function { function: shared },
        odometer0.input_metric.duplicate(),
        odometer0.output_measure.duplicate(),
    )
}

} // verus!
