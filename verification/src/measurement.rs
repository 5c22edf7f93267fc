//! Measurements: randomized computations whose output distribution moves
//! by a bounded privacy loss when the input moves by a bounded distance.

use crate::error::{Error, ErrorVariant, Fallible};
use crate::function::Function;
use crate::maps::PrivacyMap;
use crate::spaces::{Component, Domain, Measure, Metric, MetricSpace};
use crate::traits::ordering::TotalOrd;
use crate::transformation::check_outcome;
use vstd::prelude::*;

verus! {

/// A randomized computation on a domain, with a bound on the privacy loss
/// in terms of how far inputs are apart. What it releases may be a value, or
/// a queryable that goes on to answer queries.
#[verifier::reject_recursive_types(DI)]
#[verifier::reject_recursive_types(TO)]
#[verifier::reject_recursive_types(MI)]
#[verifier::reject_recursive_types(MO)]
pub struct Measurement<DI: Domain, TO, MI: Metric, MO: Measure> {
    pub input_domain: DI,
    pub function: Function<DI::Carrier, TO>,
    pub input_metric: MI,
    pub output_measure: MO,
    pub privacy_map: PrivacyMap<MI, MO>,
}

impl<DI: Domain, TO, MI: Metric, MO: Measure> Clone for Measurement<DI, TO, MI, MO> {
    fn clone(&self) -> (copy: Self)
        ensures
            copy == *self,
    {
        Measurement {
            input_domain: self.input_domain.duplicate(),
            function: self.function.clone(),
            input_metric: self.input_metric.duplicate(),
            output_measure: self.output_measure.duplicate(),
            privacy_map: self.privacy_map.clone(),
        }
    }
}

impl<DI, TO, MI, MO> Measurement<DI, TO, MI, MO> where
    DI: MetricSpace<MI>,
    TO: 'static,
    MI: Metric,
    MO: Measure,
    DI::Carrier: 'static,
    MI::Distance: 'static,
    MO::Distance: 'static,
 {
    /// The input metric is defined on the input domain.
    pub open spec fn wf(&self) -> bool {
        self.input_domain.admits(&self.input_metric)
    }

    /// Puts a measurement together. Fails with `MakeMeasurement` where the
    /// input metric is not defined on the input domain.
    pub fn new(
        input_domain: DI,
        function: Function<DI::Carrier, TO>,
        input_metric: MI,
        output_measure: MO,
        privacy_map: PrivacyMap<MI, MO>,
    ) -> (out: Fallible<Self>)
        ensures
            match out {
                Ok(measurement) => {
                    &&& measurement.wf()
                    &&& measurement.input_domain == input_domain
                    &&& measurement.function == function
                    &&& measurement.input_metric == input_metric
                    &&& measurement.output_measure == output_measure
                    &&& measurement.privacy_map == privacy_map
                },
                Err(e) => {
                    &&& e.variant == ErrorVariant::MakeMeasurement
                    &&& !input_domain.admits(&input_metric)
                },
            },
    {
        if !input_domain.check_space(&input_metric) {
            return Err(
                Error::new(
                    ErrorVariant::MakeMeasurement,
                    "the input metric is not defined on the input domain",
                ),
            );
        }
        Ok(Measurement { input_domain, function, input_metric, output_measure, privacy_map })
    }

    /// Runs the function on `arg`. Whether `arg` belongs to the input domain
    /// is not looked at.
    pub fn invoke(&self, arg: &DI::Carrier) -> (out: Fallible<TO>)
        ensures
            self.function.outcome(*arg, out),
    {
        self.function.eval(arg)
    }

    /// Bounds the privacy loss for inputs that are `d_in` apart.
    pub fn map(&self, d_in: &MI::Distance) -> (out: Fallible<MO::Distance>)
        ensures
            self.privacy_map.outcome(*d_in, out),
    {
        self.privacy_map.eval(d_in)
    }

    /// Whether the privacy loss is at most `d_out` for inputs that are
    /// `d_in` apart: whether `d_out` is not less than what the map gives.
    pub fn check(&self, d_in: &MI::Distance, d_out: &MO::Distance) -> (out: Fallible<bool>) where
        MO::Distance: TotalOrd,

        ensures
            check_outcome(self.privacy_map.map, *d_in, *d_out, out),
    {
        match self.map(d_in) {
            Ok(bound) => d_out.total_ge(&bound),
            Err(e) => Err(e),
        }
    }
}

} // verus!
