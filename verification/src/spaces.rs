//! Domains, metrics and measures: the sets of values that a computation
//! takes or gives, and the ways in which closeness of inputs and privacy loss
//! of outputs are measured.

use crate::error::Fallible;
use crate::traits::ordering::answers;
use vstd::prelude::*;

verus! {

/// A part of a transformation or measurement that can be told apart from
/// another of its type, and described to a reader.
pub trait Component: Sized {
    /// Another component with the same parameters.
    fn duplicate(&self) -> (copy: Self)
        ensures
            copy == *self,
    ;

    /// Whether the two are the same: they are of one type already, so this
    /// is whether their parameters agree.
    fn matches(&self, other: &Self) -> (same: bool)
        ensures
            same == (*self == *other),
    ;

    /// The text that describes this component. A type that does not say
    /// otherwise has the empty text.
    open spec fn description(&self) -> Seq<char> {
        Seq::empty()
    }

    /// A description of this component: its type and its parameters.
    fn describe(&self) -> (text: String)
        ensures
            text@ == self.description(),
    ;
}

/// A set of values of one type, the carrier.
pub trait Domain: Component {
    type Carrier;

    /// Whether `val` belongs to the domain, where that can be told. A type
    /// that does not say otherwise can tell of no value.
    open spec fn contains(&self, val: Self::Carrier) -> Option<bool> {
        None
    }

    /// Whether `val` belongs to the domain. Fails with `FailedFunction`
    /// where that cannot be told.
    fn member(&self, val: &Self::Carrier) -> (out: Fallible<bool>)
        ensures
            answers(out, self.contains(*val)),
    ;
}

/// A way to measure how far two values of a domain are apart.
pub trait Metric: Component {
    type Distance;
}

/// A way to measure how far the distributions of two outputs are apart: the
/// privacy loss.
pub trait Measure: Component {
    type Distance;
}

/// Domains on which the metric `M` is defined.
pub trait MetricSpace<M: Metric>: Domain {
    /// Whether `metric` can measure distances on this domain. A type that
    /// does not say otherwise admits every metric of the type `M`.
    open spec fn admits(&self, metric: &M) -> bool {
        true
    }

    /// Whether `metric` can measure distances on this domain.
    fn check_space(&self, metric: &M) -> (ok: bool)
        ensures
            ok == self.admits(metric),
    ;
}

} // verus!
