//! What holds of every chain: it computes the outer after the inner, its
//! map is the outer map after the inner map, work on a release costs
//! nothing, and what does not fit together is not chained.

use crate::combinators::chain::{chain_mt_made, chain_pm_made, chain_tt_made};
use crate::error::{Error, ErrorVariant, Fallible};
use crate::function::{chain_outcome, Function};
use crate::measurement::Measurement;
use crate::spaces::{Measure, Metric, MetricSpace};
use crate::transformation::Transformation;
use vstd::prelude::*;

verus! {

/// Whether `function` has exactly one outcome on `arg`, and it is `out`.
pub open spec fn only_outcome<TI: 'static, TO: 'static>(
    function: Function<TI, TO>,
    arg: TI,
    out: Fallible<TO>,
) -> bool {
    forall|other: Fallible<TO>| #[trigger] function.outcome(arg, other) <==> other == out
}

/// Where the inner function gives `mid` on `arg` and nothing else, and
/// the outer gives `out` on `mid` and nothing else, calling one after the
/// other gives `out` and nothing else.
pub proof fn outer_after_inner<TI: 'static, TX: 'static, TO: 'static>(
    outer: Function<TX, TO>,
    inner: Function<TI, TX>,
    arg: TI,
    mid: TX,
    out: Fallible<TO>,
)
    requires
        only_outcome(inner, arg, Ok(mid)),
        only_outcome(outer, mid, out),
    ensures
        forall|other: Fallible<TO>| chain_outcome(outer, inner, arg, other) <==> other == out,
{
    assert forall|other: Fallible<TO>| chain_outcome(outer, inner, arg, other) <==> other
        == out by {
        if chain_outcome(outer, inner, arg, other) {
            if exists|e: Error| #[trigger]
                inner.outcome(arg, Err(e)) && other == Err::<TO, Error>(e) {
                let e = choose|e: Error| #[trigger]
                    inner.outcome(arg, Err(e)) && other == Err::<TO, Error>(e);
                assert(inner.outcome(arg, Err(e)));
                assert(false);
            }
            let middle = choose|middle: TX| #[trigger]
                inner.outcome(arg, Ok(middle)) && outer.outcome(middle, other);
            assert(inner.outcome(arg, Ok(middle)));
            assert(outer.outcome(mid, other));
        }
        if other == out {
            assert(inner.outcome(arg, Ok(mid)));
            assert(outer.outcome(mid, out));
        }
    }
}

/// Where the inner function fails with `e` on `arg` and nothing else,
/// calling one after the other fails with `e` and nothing else: the outer
/// function is not asked.
pub proof fn inner_failure_is_the_failure<TI: 'static, TX: 'static, TO: 'static>(
    outer: Function<TX, TO>,
    inner: Function<TI, TX>,
    arg: TI,
    e: Error,
)
    requires
        only_outcome(inner, arg, Err(e)),
    ensures
        forall|other: Fallible<TO>|
            chain_outcome(outer, inner, arg, other) <==> other == Err::<TO, Error>(e),
{
    assert forall|other: Fallible<TO>|
        chain_outcome(outer, inner, arg, other) <==> other == Err::<TO, Error>(e) by {
        if chain_outcome(outer, inner, arg, other) {
            if exists|middle: TX| #[trigger]
                inner.outcome(arg, Ok(middle)) && outer.outcome(middle, other) {
                let middle = choose|middle: TX| #[trigger]
                    inner.outcome(arg, Ok(middle)) && outer.outcome(middle, other);
                assert(inner.outcome(arg, Ok(middle)));
                assert(false);
            }
            let failure = choose|failure: Error| #[trigger]
                inner.outcome(arg, Err(failure)) && other == Err::<TO, Error>(failure);
            assert(inner.outcome(arg, Err(failure)));
        }
        if other == Err::<TO, Error>(e) {
            assert(inner.outcome(arg, Err(e)));
        }
    }
}

/// A chain of two transformations computes the outer after the inner,
/// and bounds distances by the outer map after the inner map: where
/// `transformation0` gives `mid` on `x` and `transformation1` gives `y` on
/// `mid`, the chain gives `y` on `x`; where the map of `transformation0`
/// gives `d_mid` on `d_in` and the map of `transformation1` gives `d_out`
/// on `d_mid`, the map of the chain gives `d_out` on `d_in`. Each time that
/// is all it gives.
pub proof fn chain_of_transformations_runs_in_turn<DI, DX, DO, MI, MX, MO>(
    transformation1: Transformation<DX, DO, MX, MO>,
    transformation0: Transformation<DI, DX, MI, MX>,
    chain: Transformation<DI, DO, MI, MO>,
    x: DI::Carrier,
    mid: DX::Carrier,
    y: Fallible<DO::Carrier>,
    d_in: MI::Distance,
    d_mid: MX::Distance,
    d_out: Fallible<MO::Distance>,
) where
    DI: MetricSpace<MI>,
    DX: MetricSpace<MX>,
    DO: MetricSpace<MO>,
    MI: Metric,
    MX: Metric,
    MO: Metric,
    DI::Carrier: 'static,
    DX::Carrier: 'static,
    DO::Carrier: 'static,
    MI::Distance: 'static,
    MX::Distance: 'static,
    MO::Distance: 'static,

    requires
        chain_tt_made(transformation1, transformation0, Ok(chain)),
    ensures
        only_outcome(transformation0.function, x, Ok(mid)) && only_outcome(
            transformation1.function,
            mid,
            y,
        ) ==> only_outcome(chain.function, x, y),
        only_outcome(transformation0.stability_map.map, d_in, Ok(d_mid)) && only_outcome(
            transformation1.stability_map.map,
            d_mid,
            d_out,
        ) ==> only_outcome(chain.stability_map.map, d_in, d_out),
{
    if only_outcome(transformation0.function, x, Ok(mid)) && only_outcome(
        transformation1.function,
        mid,
        y,
    ) {
        outer_after_inner(transformation1.function, transformation0.function, x, mid, y);
        assert forall|other: Fallible<DO::Carrier>| #[trigger]
            chain.function.outcome(x, other) <==> other == y by {
            assert(chain.function.outcome(x, other) <==> chain_outcome(
                transformation1.function,
                transformation0.function,
                x,
                other,
            ));
        }
    }
    if only_outcome(transformation0.stability_map.map, d_in, Ok(d_mid)) && only_outcome(
        transformation1.stability_map.map,
        d_mid,
        d_out,
    ) {
        outer_after_inner(
            transformation1.stability_map.map,
            transformation0.stability_map.map,
            d_in,
            d_mid,
            d_out,
        );
        assert forall|other: Fallible<MO::Distance>| #[trigger]
            chain.stability_map.map.outcome(d_in, other) <==> other == d_out by {
            assert(chain.stability_map.outcome(d_in, other) <==> chain_outcome(
                transformation1.stability_map.map,
                transformation0.stability_map.map,
                d_in,
                other,
            ));
        }
    }
}

/// A chain of a measurement after a transformation bounds the privacy
/// loss by the privacy map after the stability map: where the stability
/// map gives `d_mid` on `d_in` and the privacy map gives `d_out` on
/// `d_mid`, the map of the chain gives `d_out` on `d_in`, and that is all
/// it gives.
pub proof fn chain_of_measurement_maps_in_turn<DI, DX, TO, MI, MX, MO>(
    measurement1: Measurement<DX, TO, MX, MO>,
    transformation0: Transformation<DI, DX, MI, MX>,
    chain: Measurement<DI, TO, MI, MO>,
    d_in: MI::Distance,
    d_mid: MX::Distance,
    d_out: Fallible<MO::Distance>,
) where
    DI: MetricSpace<MI>,
    DX: MetricSpace<MX>,
    TO: 'static,
    MI: Metric,
    MX: Metric,
    MO: Measure,
    DI::Carrier: 'static,
    DX::Carrier: 'static,
    MI::Distance: 'static,
    MX::Distance: 'static,
    MO::Distance: 'static,

    requires
        chain_mt_made(measurement1, transformation0, Ok(chain)),
        only_outcome(transformation0.stability_map.map, d_in, Ok(d_mid)),
        only_outcome(measurement1.privacy_map.map, d_mid, d_out),
    ensures
        only_outcome(chain.privacy_map.map, d_in, d_out),
{
    outer_after_inner(
        measurement1.privacy_map.map,
        transformation0.stability_map.map,
        d_in,
        d_mid,
        d_out,
    );
    assert forall|other: Fallible<MO::Distance>| #[trigger]
        chain.privacy_map.map.outcome(d_in, other) <==> other == d_out by {
        assert(chain.privacy_map.outcome(d_in, other) <==> chain_outcome(
            measurement1.privacy_map.map,
            transformation0.stability_map.map,
            d_in,
            other,
        ));
    }
}

/// Working on a release is free: the privacy map of a measurement with
/// postprocessing gives on every distance what the map of the measurement
/// gives.
pub proof fn postprocessing_is_free<DI, TX, TO, MI, MO>(
    postprocess1: Function<TX, TO>,
    measurement0: Measurement<DI, TX, MI, MO>,
    chain: Measurement<DI, TO, MI, MO>,
) where
    DI: MetricSpace<MI>,
    TX: 'static,
    TO: 'static,
    MI: Metric,
    MO: Measure,
    DI::Carrier: 'static,
    MI::Distance: 'static,
    MO::Distance: 'static,

    requires
        chain_pm_made(postprocess1, measurement0, Ok(chain)),
    ensures
        chain.privacy_map == measurement0.privacy_map,
        forall|d_in: MI::Distance, d_out: Fallible<MO::Distance>|
            chain.privacy_map.outcome(d_in, d_out) <==> measurement0.privacy_map.outcome(
                d_in,
                d_out,
            ),
{
}

/// Transformations that do not meet in one domain and one metric are not
/// chained: the attempt fails, with `DomainMismatch` where the domains
/// differ and else with `MetricMismatch`.
pub proof fn mismatch_is_rejected<DI, DX, DO, MI, MX, MO>(
    transformation1: Transformation<DX, DO, MX, MO>,
    transformation0: Transformation<DI, DX, MI, MX>,
    out: Fallible<Transformation<DI, DO, MI, MO>>,
) where
    DI: MetricSpace<MI>,
    DX: MetricSpace<MX>,
    DO: MetricSpace<MO>,
    MI: Metric,
    MX: Metric,
    MO: Metric,
    DI::Carrier: 'static,
    DX::Carrier: 'static,
    DO::Carrier: 'static,
    MI::Distance: 'static,
    MX::Distance: 'static,
    MO::Distance: 'static,

    requires
        chain_tt_made(transformation1, transformation0, out),
        transformation0.output_domain != transformation1.input_domain
            || transformation0.output_metric != transformation1.input_metric,
    ensures
        out matches Err(e) && e.variant == (if transformation0.output_domain
            != transformation1.input_domain {
            ErrorVariant::DomainMismatch
        } else {
            ErrorVariant::MetricMismatch
        }),
{
}

} // verus!
