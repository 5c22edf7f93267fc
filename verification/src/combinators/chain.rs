//! Chaining: the output of one computation becomes the input of the next.
//! The two must meet in the same domain and the same metric.

use crate::error::{message_view, Error, ErrorVariant, Fallible};
use crate::function::{chain_outcome, Function};
use crate::maps::{PrivacyMap, StabilityMap};
use crate::measurement::Measurement;
use crate::spaces::{Component, Measure, Metric, MetricSpace};
use crate::transformation::Transformation;
use vstd::prelude::*;
use vstd::string::StringExecFns;

verus! {

/// Where a mismatch is discussed.
pub open spec fn error_url() -> Seq<char> {
    "https://github.com/opendp/opendp/discussions/297"@
}

/// What a mismatch is a mismatch of: a domain, a metric or a measure.
pub open spec fn mismatch_mode(variant: ErrorVariant) -> Seq<char> {
    match variant {
        ErrorVariant::DomainMismatch => "domain"@,
        ErrorVariant::MetricMismatch => "metric"@,
        _ => "measure"@,
    }
}

/// The message of a mismatch between an output described by `output` and
/// an input described by `input`. Where the descriptions are equal, the
/// two are of one structure and differ in their parameters, and the message
/// says so.
pub open spec fn mismatch_message(mode: Seq<char>, output: Seq<char>, input: Seq<char>) -> Seq<char> {
    "Intermediate "@ + mode + "s don't match. See "@ + error_url() + (if output == input {
        "\n    The structure of the intermediate "@ + mode
            + "s are the same, but the parameters differ.\n    shared_"@ + mode + ": "@ + output
            + "\n"@
    } else {
        "\n    output_"@ + mode + ": "@ + output + "\n    input_"@ + mode + ":  "@ + input + "\n"@
    })
}

/// The error for two components that should be the same and are not:
/// `struct1` on the output side, `struct2` on the input side.
pub fn mismatch_error<T: Component>(variant: ErrorVariant, struct1: &T, struct2: &T) -> (error: Error)
    requires
        variant == ErrorVariant::DomainMismatch || variant == ErrorVariant::MetricMismatch
            || variant == ErrorVariant::MeasureMismatch,
    ensures
        error.variant == variant,
        message_view(error.message) == Some(
            mismatch_message(
                mismatch_mode(variant),
                struct1.description(),
                struct2.description(),
            ),
        ),
{
    let str1 = struct1.describe();
    let str2 = struct2.describe();
    let mode = match variant {
        ErrorVariant::DomainMismatch => "domain",
        ErrorVariant::MetricMismatch => "metric",
        _ => "measure",
    };
    let explanation = if str1 == str2 {
        String::from_str("\n    The structure of the intermediate ").concat(mode).concat(
            "s are the same, but the parameters differ.\n    shared_",
        ).concat(mode).concat(": ").concat(str1.as_str()).concat("\n")
    } else {
        String::from_str("\n    output_").concat(mode).concat(": ").concat(str1.as_str()).concat(
            "\n    input_",
        ).concat(mode).concat(":  ").concat(str2.as_str()).concat("\n")
    };
    let message = String::from_str("Intermediate ").concat(mode).concat(
        "s don't match. See ",
    ).concat("https://github.com/opendp/opendp/discussions/297").concat(explanation.as_str());
    Error { variant, message: Some(message) }
}

/// Whether `out` is what chaining `transformation1` after
/// `transformation0` gives: the chain, or the failure that is due.
pub open spec fn chain_tt_made<DI, DX, DO, MI, MX, MO>(
    transformation1: Transformation<DX, DO, MX, MO>,
    transformation0: Transformation<DI, DX, MI, MX>,
    out: Fallible<Transformation<DI, DO, MI, MO>>,
) -> bool where
    DI: MetricSpace<MI>,
    DX: MetricSpace<MX>,
    DO: MetricSpace<MO>,
    MI: Metric,
    MX: Metric,
    MO: Metric,
    DI::Carrier: 'static,
    DX::Carrier: 'static,
    DO::Carrier: 'static,
    MI::Distance: 'static,
    MX::Distance: 'static,
    MO::Distance: 'static,
 {
    match out {
        Ok(chain) => {
            &&& transformation0.output_domain == transformation1.input_domain
            &&& transformation0.output_metric == transformation1.input_metric
            &&& chain.wf()
            &&& chain.input_domain == transformation0.input_domain
            &&& chain.output_domain == transformation1.output_domain
            &&& chain.input_metric == transformation0.input_metric
            &&& chain.output_metric == transformation1.output_metric
            &&& forall|arg: DI::Carrier, res: Fallible<DO::Carrier>| #[trigger]
                chain.function.outcome(arg, res) <==> chain_outcome(
                    transformation1.function,
                    transformation0.function,
                    arg,
                    res,
                )
            &&& forall|d_in: MI::Distance, d_out: Fallible<MO::Distance>| #[trigger]
                chain.stability_map.outcome(d_in, d_out) <==> chain_outcome(
                    transformation1.stability_map.map,
                    transformation0.stability_map.map,
                    d_in,
                    d_out,
                )
        },
        Err(e) => if transformation0.output_domain != transformation1.input_domain {
            e.variant == ErrorVariant::DomainMismatch
        } else if transformation0.output_metric != transformation1.input_metric {
            e.variant == ErrorVariant::MetricMismatch
        } else {
            &&& e.variant == ErrorVariant::MakeTransformation
            &&& !(transformation0.input_domain.admits(&transformation0.input_metric)
                && transformation1.output_domain.admits(&transformation1.output_metric))
        },
    }
}

/// The chain `transformation1 ∘ transformation0`: what it computes is
/// `transformation1(transformation0(x))`, and its stability map is the map
/// of `transformation1` after that of `transformation0`.
///
/// Fails with `DomainMismatch` where the output domain of
/// `transformation0` is not the input domain of `transformation1`, else with
/// `MetricMismatch` where the metrics between them differ, else with
/// `MakeTransformation` where a metric at either end is not defined on its
/// domain.
pub fn make_chain_tt<DI, DX, DO, MI, MX, MO>(
    transformation1: &Transformation<DX, DO, MX, MO>,
    transformation0: &Transformation<DI, DX, MI, MX>,
) -> (out: Fallible<Transformation<DI, DO, MI, MO>>) where
    DI: MetricSpace<MI>,
    DX: MetricSpace<MX>,
    DO: MetricSpace<MO>,
    MI: Metric,
    MX: Metric,
    MO: Metric,
    DI::Carrier: 'static,
    DX::Carrier: 'static,
    DO::Carrier: 'static,
    MI::Distance: 'static,
    MX::Distance: 'static,
    MO::Distance: 'static,

    ensures
        chain_tt_made(*transformation1, *transformation0, out),
{
    if !transformation0.output_domain.matches(&transformation1.input_domain) {
        return Err(
            mismatch_error(
                ErrorVariant::DomainMismatch,
                &transformation0.output_domain,
                &transformation1.input_domain,
            ),
        );
    }
    if !transformation0.output_metric.matches(&transformation1.input_metric) {
        return Err(
            mismatch_error(
                ErrorVariant::MetricMismatch,
                &transformation0.output_metric,
                &transformation1.input_metric,
            ),
        );
    }
    Transformation::new(
        transformation0.input_domain.duplicate(),
        transformation1.output_domain.duplicate(),
        Function::make_chain(&transformation1.function, &transformation0.function),
        transformation0.input_metric.duplicate(),
        transformation1.output_metric.duplicate(),
        StabilityMap::make_chain(&transformation1.stability_map, &transformation0.stability_map),
    )
}

/// Whether `out` is what chaining `measurement1` after `transformation0`
/// gives: the chain, or the failure that is due.
pub open spec fn chain_mt_made<DI, DX, TO, MI, MX, MO>(
    measurement1: Measurement<DX, TO, MX, MO>,
    transformation0: Transformation<DI, DX, MI, MX>,
    out: Fallible<Measurement<DI, TO, MI, MO>>,
) -> bool where
    DI: MetricSpace<MI>,
    DX: MetricSpace<MX>,
    TO: 'static,
    MI: Metric,
    MX: Metric,
    MO: Measure,
    DI::Carrier: 'static,
    DX::Carrier: 'static,
    MI::Distance: 'static,
    MX::Distance: 'static,
    MO::Distance: 'static,
 {
    match out {
        Ok(chain) => {
            &&& transformation0.output_domain == measurement1.input_domain
            &&& transformation0.output_metric == measurement1.input_metric
            &&& chain.wf()
            &&& chain.input_domain == transformation0.input_domain
            &&& chain.input_metric == transformation0.input_metric
            &&& chain.output_measure == measurement1.output_measure
            &&& forall|arg: DI::Carrier, res: Fallible<TO>| #[trigger]
                chain.function.outcome(arg, res) <==> chain_outcome(
                    measurement1.function,
                    transformation0.function,
                    arg,
                    res,
                )
            &&& forall|d_in: MI::Distance, d_out: Fallible<MO::Distance>| #[trigger]
                chain.privacy_map.outcome(d_in, d_out) <==> chain_outcome(
                    measurement1.privacy_map.map,
                    transformation0.stability_map.map,
                    d_in,
                    d_out,
                )
        },
        Err(e) => if transformation0.output_domain != measurement1.input_domain {
            e.variant == ErrorVariant::DomainMismatch
        } else if transformation0.output_metric != measurement1.input_metric {
            e.variant == ErrorVariant::MetricMismatch
        } else {
            &&& e.variant == ErrorVariant::MakeMeasurement
            &&& !transformation0.input_domain.admits(&transformation0.input_metric)
        },
    }
}

/// The chain `measurement1 ∘ transformation0`: what it computes is
/// `measurement1(transformation0(x))`, and its privacy map is the privacy
/// map of `measurement1` after the stability map of `transformation0`.
///
/// Fails with `DomainMismatch` where the output domain of
/// `transformation0` is not the input domain of `measurement1`, else with
/// `MetricMismatch` where the metrics between them differ, else with
/// `MakeMeasurement` where the input metric is not defined on the input
/// domain.
pub fn make_chain_mt<DI, DX, TO, MI, MX, MO>(
    measurement1: &Measurement<DX, TO, MX, MO>,
    transformation0: &Transformation<DI, DX, MI, MX>,
) -> (out: Fallible<Measurement<DI, TO, MI, MO>>) where
    DI: MetricSpace<MI>,
    DX: MetricSpace<MX>,
    TO: 'static,
    MI: Metric,
    MX: Metric,
    MO: Measure,
    DI::Carrier: 'static,
    DX::Carrier: 'static,
    MI::Distance: 'static,
    MX::Distance: 'static,
    MO::Distance: 'static,

    ensures
        chain_mt_made(*measurement1, *transformation0, out),
{
    if !transformation0.output_domain.matches(&measurement1.input_domain) {
        return Err(
            mismatch_error(
                ErrorVariant::DomainMismatch,
                &transformation0.output_domain,
                &measurement1.input_domain,
            ),
        );
    }
    if !transformation0.output_metric.matches(&measurement1.input_metric) {
        return Err(
            mismatch_error(
                ErrorVariant::MetricMismatch,
                &transformation0.output_metric,
                &measurement1.input_metric,
            ),
        );
    }
    Measurement::new(
        transformation0.input_domain.duplicate(),
        Function::make_chain(&measurement1.function, &transformation0.function),
        transformation0.input_metric.duplicate(),
        measurement1.output_measure.duplicate(),
        PrivacyMap::make_chain(&measurement1.privacy_map, &transformation0.stability_map),
    )
}

/// Whether `out` is what chaining `postprocess1` after `measurement0`
/// gives: the chain, or the failure that is due.
pub open spec fn chain_pm_made<DI, TX, TO, MI, MO>(
    postprocess1: Function<TX, TO>,
    measurement0: Measurement<DI, TX, MI, MO>,
    out: Fallible<Measurement<DI, TO, MI, MO>>,
) -> bool where
    DI: MetricSpace<MI>,
    TX: 'static,
    TO: 'static,
    MI: Metric,
    MO: Measure,
    DI::Carrier: 'static,
    MI::Distance: 'static,
    MO::Distance: 'static,
 {
    match out {
        Ok(chain) => {
            &&& chain.wf()
            &&& chain.input_domain == measurement0.input_domain
            &&& chain.input_metric == measurement0.input_metric
            &&& chain.output_measure == measurement0.output_measure
            &&& chain.privacy_map == measurement0.privacy_map
            &&& forall|arg: DI::Carrier, res: Fallible<TO>| #[trigger]
                chain.function.outcome(arg, res) <==> chain_outcome(
                    postprocess1,
                    measurement0.function,
                    arg,
                    res,
                )
        },
        Err(e) => {
            &&& e.variant == ErrorVariant::MakeMeasurement
            &&& !measurement0.input_domain.admits(&measurement0.input_metric)
        },
    }
}

/// The chain `postprocess1 ∘ measurement0`: what it computes is
/// `postprocess1(measurement0(x))`. Working on a release costs no privacy:
/// the privacy map is that of `measurement0`, unchanged.
///
/// Fails with `MakeMeasurement` where the input metric is not defined on
/// the input domain.
pub fn make_chain_pm<DI, TX, TO, MI, MO>(
    postprocess1: &Function<TX, TO>,
    measurement0: &Measurement<DI, TX, MI, MO>,
) -> (out: Fallible<Measurement<DI, TO, MI, MO>>) where
    DI: MetricSpace<MI>,
    TX: 'static,
    TO: 'static,
    MI: Metric,
    MO: Measure,
    DI::Carrier: 'static,
    MI::Distance: 'static,
    MO::Distance: 'static,

    ensures
        chain_pm_made(*postprocess1, *measurement0, out),
{
    Measurement::new(
        measurement0.input_domain.duplicate(),
        Function::make_chain(postprocess1, &measurement0.function),
        measurement0.input_metric.duplicate(),
        measurement0.output_measure.duplicate(),
        measurement0.privacy_map.clone(),
    )
}

/// The chain `transformation1 ∘ measurement0`: the function of the
/// transformation works on what the measurement releases. As with any work
/// on a release, the privacy map is that of `measurement0`, unchanged; the
/// stability map of the transformation plays no part.
///
/// Fails with `MakeMeasurement` where the input metric is not defined on
/// the input domain.
pub fn make_chain_tm<DI, DX, DO, MI, MX, MO, ME>(
    transformation1: &Transformation<DX, DO, MX, MO>,
    measurement0: &Measurement<DI, DX::Carrier, MI, ME>,
) -> (out: Fallible<Measurement<DI, DO::Carrier, MI, ME>>) where
    DI: MetricSpace<MI>,
    DX: MetricSpace<MX>,
    DO: MetricSpace<MO>,
    MI: Metric,
    MX: Metric,
    MO: Metric,
    ME: Measure,
    DI::Carrier: 'static,
    DX::Carrier: 'static,
    DO::Carrier: 'static,
    MI::Distance: 'static,
    MX::Distance: 'static,
    MO::Distance: 'static,
    ME::Distance: 'static,

    ensures
        chain_pm_made(transformation1.function, *measurement0, out),
{
    make_chain_pm(&transformation1.function, measurement0)
}

} // verus!
