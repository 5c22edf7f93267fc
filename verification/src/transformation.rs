//! Transformations: deterministic computations whose output moves by a
//! bounded distance when the input does.

use crate::error::{Error, ErrorVariant, Fallible};
use crate::function::Function;
use crate::maps::StabilityMap;
use crate::spaces::{Component, Domain, Metric, MetricSpace};
use crate::traits::ordering::{answers, Comparison, TotalOrd};
use vstd::prelude::*;

verus! {

/// Whether `out` is an outcome of checking the declared bound `d_out`
/// against what `map` gives on `d_in`: the failure of the map, or whether
/// `d_out` is not less than the bound it gave.
pub open spec fn check_outcome<QI, QO: TotalOrd>(
    map: Function<QI, QO>,
    d_in: QI,
    d_out: QO,
    out: Fallible<bool>,
) -> bool {
    ||| exists|bound: QO| #[trigger]
        map.outcome(d_in, Ok(bound)) && answers(
            out,
            match d_out.compare(&bound) {
                Some(c) => Some(c != Comparison::Less),
                None => None,
            },
        )
    ||| exists|e: Error| #[trigger] map.outcome(d_in, Err(e)) && out == Err::<bool, Error>(e)
}

/// A computation from one domain to another, with a bound on how far
/// outputs are apart in terms of how far inputs are.
#[verifier::reject_recursive_types(DI)]
#[verifier::reject_recursive_types(DO)]
#[verifier::reject_recursive_types(MI)]
#[verifier::reject_recursive_types(MO)]
pub struct Transformation<DI: Domain, DO: Domain, MI: Metric, MO: Metric> {
    pub input_domain: DI,
    pub output_domain: DO,
    pub function: Function<DI::Carrier, DO::Carrier>,
    pub input_metric: MI,
    pub output_metric: MO,
    pub stability_map: StabilityMap<MI, MO>,
}

impl<DI: Domain, DO: Domain, MI: Metric, MO: Metric> Clone for Transformation<DI, DO, MI, MO> {
    fn clone(&self) -> (copy: Self)
        ensures
            copy == *self,
    {
        Transformation {
            input_domain: self.input_domain.duplicate(),
            output_domain: self.output_domain.duplicate(),
            function: self.function.clone(),
            input_metric: self.input_metric.duplicate(),
            output_metric: self.output_metric.duplicate(),
            stability_map: self.stability_map.clone(),
        }
    }
}

impl<DI, DO, MI, MO> Transformation<DI, DO, MI, MO> where
    DI: MetricSpace<MI>,
    DO: MetricSpace<MO>,
    MI: Metric,
    MO: Metric,
    DI::Carrier: 'static,
    DO::Carrier: 'static,
    MI::Distance: 'static,
    MO::Distance: 'static,
 {
    /// Each metric is defined on its domain.
    pub open spec fn wf(&self) -> bool {
        &&& self.input_domain.admits(&self.input_metric)
        &&& self.output_domain.admits(&self.output_metric)
    }

    /// Puts a transformation together. Fails with `MakeTransformation`
    /// where a metric is not defined on its domain.
    pub fn new(
        input_domain: DI,
        output_domain: DO,
        function: Function<DI::Carrier, DO::Carrier>,
        input_metric: MI,
        output_metric: MO,
        stability_map: StabilityMap<MI, MO>,
    ) -> (out: Fallible<Self>)
        ensures
            match out {
                Ok(transformation) => {
                    &&& transformation.wf()
                    &&& transformation.input_domain == input_domain
                    &&& transformation.output_domain == output_domain
                    &&& transformation.function == function
                    &&& transformation.input_metric == input_metric
                    &&& transformation.output_metric == output_metric
                    &&& transformation.stability_map == stability_map
                },
                Err(e) => {
                    &&& e.variant == ErrorVariant::MakeTransformation
                    &&& !(input_domain.admits(&input_metric) && output_domain.admits(
                        &output_metric,
                    ))
                },
            },
    {
        if !input_domain.check_space(&input_metric) {
            return Err(
                Error::new(
                    ErrorVariant::MakeTransformation,
                    "the input metric is not defined on the input domain",
                ),
            );
        }
        if !output_domain.check_space(&output_metric) {
            return Err(
                Error::new(
                    ErrorVariant::MakeTransformation,
                    "the output metric is not defined on the output domain",
                ),
            );
        }
        Ok(
            Transformation {
                input_domain,
                output_domain,
                function,
                input_metric,
                output_metric,
                stability_map,
            },
        )
    }

    /// Runs the function on `arg`. Whether `arg` belongs to the input domain
    /// is not looked at.
    pub fn invoke(&self, arg: &DI::Carrier) -> (out: Fallible<DO::Carrier>)
        ensures
            self.function.outcome(*arg, out),
    {
        self.function.eval(arg)
    }

    /// Bounds the distance between outputs for inputs that are `d_in`
    /// apart.
    pub fn map(&self, d_in: &MI::Distance) -> (out: Fallible<MO::Distance>)
        ensures
            self.stability_map.outcome(*d_in, out),
    {
        self.stability_map.eval(d_in)
    }

    /// Whether outputs are at most `d_out` apart for inputs that are `d_in`
    /// apart: whether `d_out` is not less than what the map gives.
    pub fn check(&self, d_in: &MI::Distance, d_out: &MO::Distance) -> (out: Fallible<bool>) where
        MO::Distance: TotalOrd,

        ensures
            check_outcome(self.stability_map.map, *d_in, *d_out, out),
    {
        match self.map(d_in) {
            Ok(bound) => d_out.total_ge(&bound),
            Err(e) => Err(e),
        }
    }
}

} // verus!
