//! Restating a privacy guarantee under another measure.

use crate::error::{Error, ErrorVariant, Fallible};
use crate::function::{Callable, Function};
use crate::maps::PrivacyMap;
use crate::measurement::Measurement;
use crate::measures::{FixedSmoothedMaxDivergence, MaxDivergence};
use crate::spaces::{Component, Metric, MetricSpace};
use crate::traits::arithmetic::Zero;
use std::rc::Rc;
use vstd::prelude::*;

verus! {

/// Whether `out` is an outcome of the map `privacy_map` on `d_in`,
/// restated as a pair: the ε that the map gives, with δ zero, or the
/// failure of the map.
pub open spec fn with_zero_delta<MI: Metric, QO: Zero>(
    privacy_map: PrivacyMap<MI, MaxDivergence<QO>>,
    d_in: MI::Distance,
    out: Fallible<(QO, QO)>,
) -> bool where MI::Distance: 'static, QO: 'static {
    exists|pure: Fallible<QO>| #[trigger]
        privacy_map.outcome(d_in, pure) && out == match pure {
            Ok(epsilon) => Ok::<(QO, QO), Error>((epsilon, QO::zero_spec())),
            Err(e) => Err::<(QO, QO), Error>(e),
        }
}

/// A privacy map under pure differential privacy, restated under
/// approximate differential privacy, as a callable.
#[verifier::reject_recursive_types(MI)]
#[verifier::reject_recursive_types(QO)]
pub struct ZeroDelta<MI: Metric, QO> {
    pub privacy_map: PrivacyMap<MI, MaxDivergence<QO>>,
}

impl<MI: Metric, QO: Zero> Callable<MI::Distance, (QO, QO)> for ZeroDelta<MI, QO> where
    MI::Distance: 'static,
    QO: 'static,
 {
    open spec fn outcome(&self, arg: MI::Distance, out: Fallible<(QO, QO)>) -> bool {
        with_zero_delta(self.privacy_map, arg, out)
    }

    fn call(&self, arg: &MI::Distance) -> (out: Fallible<(QO, QO)>) {
        let pure = self.privacy_map.eval(arg);
        assert(self.privacy_map.outcome(*arg, pure));
        match pure {
            Ok(epsilon) => Ok((epsilon, QO::zero())),
            Err(e) => Err(e),
        }
    }
}

/// The measurement `meas` with its guarantee restated from pure to
/// approximate differential privacy: a loss of ε becomes a loss of (ε, 0).
/// What the measurement computes does not change.
///
/// Fails with `MakeMeasurement` where the input metric is not defined on
/// the input domain.
#[allow(non_snake_case)]
pub fn make_pureDP_to_fixed_approxDP<DI, TO, MI, QO>(
    meas: Measurement<DI, TO, MI, MaxDivergence<QO>>,
) -> (out: Fallible<Measurement<DI, TO, MI, FixedSmoothedMaxDivergence<QO>>>) where
    DI: MetricSpace<MI>,
    TO: 'static,
    MI: Metric + 'static,
    QO: Zero + 'static,
    DI::Carrier: 'static,
    MI::Distance: 'static,

    ensures
        match out {
            Ok(cast) => {
                &&& cast.wf()
                &&& cast.input_domain == meas.input_domain
                &&& cast.function == meas.function
                &&& cast.input_metric == meas.input_metric
                &&& forall|d_in: MI::Distance, loss: Fallible<(QO, QO)>| #[trigger]
                    cast.privacy_map.outcome(d_in, loss) <==> with_zero_delta(
                        meas.privacy_map,
                        d_in,
                        loss,
                    )
            },
            Err(e) => {
                &&& e.variant == ErrorVariant::MakeMeasurement
                &&& !meas.input_domain.admits(&meas.input_metric)
            },
        },
{
    let Measurement { input_domain, function, input_metric, output_measure: _, privacy_map } = meas;
    let callable: ZeroDelta<MI, QO> = ZeroDelta { privacy_map };
    let boxed: Box<dyn Callable<MI::Distance, (QO, QO)>> = Box::new(callable);
    assert(forall|d_in: MI::Distance, loss: Fallible<(QO, QO)>| #[trigger]
        boxed.outcome(d_in, loss) <==> callable.outcome(d_in, loss));
    let shared = Rc::new(boxed);
    assert(forall|d_in: MI::Distance, loss: Fallible<(QO, QO)>| #[trigger]
        shared.outcome(d_in, loss) <==> callable.outcome(d_in, loss));
    Measurement::new(
        input_domain,
        function,
        input_metric,
        FixedSmoothedMaxDivergence::default(),
        PrivacyMap { map: Function { function: shared } },
    )
}

} // verus!
