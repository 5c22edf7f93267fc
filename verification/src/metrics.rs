//! The metrics that the library provides, and the domains they are defined
//! on.

use crate::domains::{AllDomain, AtomDomain, VectorDomain};
use crate::spaces::{Component, Domain, Metric, MetricSpace};
use crate::traits::arithmetic::Integer;
use crate::traits::checks::CheckNull;
use std::marker::PhantomData;
use vstd::prelude::*;
use vstd::string::StringExecFns;

verus! {

/// The type of distances that count rows.
pub type IntDistance = u32;

/// The distance between two numbers: the absolute value of their
/// difference, as a `Q`.
pub struct AbsoluteDistance<Q> {
    pub distance: PhantomData<Q>,
}

impl<Q> Clone for AbsoluteDistance<Q> {
    fn clone(&self) -> (copy: Self)
        ensures
            copy == *self,
    {
        AbsoluteDistance { distance: PhantomData }
    }
}

impl<Q> Default for AbsoluteDistance<Q> {
    fn default() -> (metric: Self) {
        AbsoluteDistance { distance: PhantomData }
    }
}

impl<Q> Component for AbsoluteDistance<Q> {
    fn duplicate(&self) -> (copy: Self) {
        AbsoluteDistance { distance: PhantomData }
    }

    fn matches(&self, other: &Self) -> (same: bool) {
        true
    }

    open spec fn description(&self) -> Seq<char> {
        "AbsoluteDistance()"@
    }

    fn describe(&self) -> (text: String) {
        String::from_str("AbsoluteDistance()")
    }
}

impl<Q> Metric for AbsoluteDistance<Q> {
    type Distance = Q;
}

/// The distance between two datasets: the number of rows that have to be
/// added or removed to get from one to the other.
pub struct SymmetricDistance {}

impl Clone for SymmetricDistance {
    fn clone(&self) -> (copy: Self)
        ensures
            copy == *self,
    {
        SymmetricDistance {  }
    }
}

impl Default for SymmetricDistance {
    fn default() -> (metric: Self) {
        SymmetricDistance {  }
    }
}

impl Component for SymmetricDistance {
    fn duplicate(&self) -> (copy: Self) {
        SymmetricDistance {  }
    }

    fn matches(&self, other: &Self) -> (same: bool) {
        true
    }

    open spec fn description(&self) -> Seq<char> {
        "SymmetricDistance()"@
    }

    fn describe(&self) -> (text: String) {
        String::from_str("SymmetricDistance()")
    }
}

impl Metric for SymmetricDistance {
    type Distance = IntDistance;
}

/// The distance between two vectors of scores: the greatest difference
/// between the changes of any two scores, as a `Q`.
pub struct InfDifferenceDistance<Q> {
    pub distance: PhantomData<Q>,
}

impl<Q> Clone for InfDifferenceDistance<Q> {
    fn clone(&self) -> (copy: Self)
        ensures
            copy == *self,
    {
        InfDifferenceDistance { distance: PhantomData }
    }
}

impl<Q> Default for InfDifferenceDistance<Q> {
    fn default() -> (metric: Self) {
        InfDifferenceDistance { distance: PhantomData }
    }
}

impl<Q> Component for InfDifferenceDistance<Q> {
    fn duplicate(&self) -> (copy: Self) {
        InfDifferenceDistance { distance: PhantomData }
    }

    fn matches(&self, other: &Self) -> (same: bool) {
        true
    }

    open spec fn description(&self) -> Seq<char> {
        "InfDifferenceDistance()"@
    }

    fn describe(&self) -> (text: String) {
        String::from_str("InfDifferenceDistance()")
    }
}

impl<Q> Metric for InfDifferenceDistance<Q> {
    type Distance = Q;
}

/// The distance between two values: zero where they are equal, one where
/// they are not.
pub struct DiscreteDistance {}

impl Clone for DiscreteDistance {
    fn clone(&self) -> (copy: Self)
        ensures
            copy == *self,
    {
        DiscreteDistance {  }
    }
}

impl Default for DiscreteDistance {
    fn default() -> (metric: Self) {
        DiscreteDistance {  }
    }
}

impl Component for DiscreteDistance {
    fn duplicate(&self) -> (copy: Self) {
        DiscreteDistance {  }
    }

    fn matches(&self, other: &Self) -> (same: bool) {
        true
    }

    open spec fn description(&self) -> Seq<char> {
        "DiscreteDistance()"@
    }

    fn describe(&self) -> (text: String) {
        String::from_str("DiscreteDistance()")
    }
}

impl Metric for DiscreteDistance {
    type Distance = IntDistance;
}

/// The distance between two datasets in which the order of rows counts:
/// the number of rows that have to be inserted or deleted to get from one
/// to the other.
pub struct InsertDeleteDistance {}

impl Clone for InsertDeleteDistance {
    fn clone(&self) -> (copy: Self)
        ensures
            copy == *self,
    {
        InsertDeleteDistance {  }
    }
}

impl Default for InsertDeleteDistance {
    fn default() -> (metric: Self) {
        InsertDeleteDistance {  }
    }
}

impl Component for InsertDeleteDistance {
    fn duplicate(&self) -> (copy: Self) {
        InsertDeleteDistance {  }
    }

    fn matches(&self, other: &Self) -> (same: bool) {
        true
    }

    open spec fn description(&self) -> Seq<char> {
        "InsertDeleteDistance()"@
    }

    fn describe(&self) -> (text: String) {
        String::from_str("InsertDeleteDistance()")
    }
}

impl Metric for InsertDeleteDistance {
    type Distance = IntDistance;
}

/// The distance between two datasets of one size: the number of rows
/// that have to be changed to get from one to the other.
pub struct ChangeOneDistance {}

impl Clone for ChangeOneDistance {
    fn clone(&self) -> (copy: Self)
        ensures
            copy == *self,
    {
        ChangeOneDistance {  }
    }
}

impl Default for ChangeOneDistance {
    fn default() -> (metric: Self) {
        ChangeOneDistance {  }
    }
}

impl Component for ChangeOneDistance {
    fn duplicate(&self) -> (copy: Self) {
        ChangeOneDistance {  }
    }

    fn matches(&self, other: &Self) -> (same: bool) {
        true
    }

    open spec fn description(&self) -> Seq<char> {
        "ChangeOneDistance()"@
    }

    fn describe(&self) -> (text: String) {
        String::from_str("ChangeOneDistance()")
    }
}

impl Metric for ChangeOneDistance {
    type Distance = IntDistance;
}

/// The distance between two datasets of one size in which the order of
/// rows counts: the number of places at which they differ.
pub struct HammingDistance {}

impl Clone for HammingDistance {
    fn clone(&self) -> (copy: Self)
        ensures
            copy == *self,
    {
        HammingDistance {  }
    }
}

impl Default for HammingDistance {
    fn default() -> (metric: Self) {
        HammingDistance {  }
    }
}

impl Component for HammingDistance {
    fn duplicate(&self) -> (copy: Self) {
        HammingDistance {  }
    }

    fn matches(&self, other: &Self) -> (same: bool) {
        true
    }

    open spec fn description(&self) -> Seq<char> {
        "HammingDistance()"@
    }

    fn describe(&self) -> (text: String) {
        String::from_str("HammingDistance()")
    }
}

impl Metric for HammingDistance {
    type Distance = IntDistance;
}

/// Metrics on datasets that count rows.
pub trait DatasetMetric: Metric<Distance = IntDistance> {
    /// Whether the metric is defined between datasets of one size only.
    const BOUNDED: bool;
}

impl DatasetMetric for SymmetricDistance {
    const BOUNDED: bool = false;
}

impl DatasetMetric for InsertDeleteDistance {
    const BOUNDED: bool = false;
}

impl DatasetMetric for ChangeOneDistance {
    const BOUNDED: bool = true;
}

impl DatasetMetric for HammingDistance {
    const BOUNDED: bool = true;
}

/// Every metric is taken to be defined on the domain of all values.
impl<T, M: Metric> MetricSpace<M> for AllDomain<T> {
    fn check_space(&self, metric: &M) -> (ok: bool) {
        true
    }
}

/// The absolute distance is defined on single values that cannot be null.
impl<T: Integer + CheckNull, Q> MetricSpace<AbsoluteDistance<Q>> for AtomDomain<T> {
    open spec fn admits(&self, metric: &AbsoluteDistance<Q>) -> bool {
        !self.nullable
    }

    fn check_space(&self, metric: &AbsoluteDistance<Q>) -> (ok: bool) {
        !self.nullable
    }
}

/// The distance between score vectors is defined on all vectors.
impl<D: Domain, Q> MetricSpace<InfDifferenceDistance<Q>> for VectorDomain<D> {
    fn check_space(&self, metric: &InfDifferenceDistance<Q>) -> (ok: bool) {
        true
    }
}

/// The symmetric distance is defined on all vectors.
impl<D: Domain> MetricSpace<SymmetricDistance> for VectorDomain<D> {
    fn check_space(&self, metric: &SymmetricDistance) -> (ok: bool) {
        true
    }
}

/// The insert-delete distance is defined on all vectors.
impl<D: Domain> MetricSpace<InsertDeleteDistance> for VectorDomain<D> {
    fn check_space(&self, metric: &InsertDeleteDistance) -> (ok: bool) {
        true
    }
}

/// The change-one distance is defined on vectors of one known size.
impl<D: Domain> MetricSpace<ChangeOneDistance> for VectorDomain<D> {
    open spec fn admits(&self, metric: &ChangeOneDistance) -> bool {
        self.size is Some
    }

    fn check_space(&self, metric: &ChangeOneDistance) -> (ok: bool) {
        self.size.is_some()
    }
}

/// The Hamming distance is defined on vectors of one known size.
impl<D: Domain> MetricSpace<HammingDistance> for VectorDomain<D> {
    open spec fn admits(&self, metric: &HammingDistance) -> bool {
        self.size is Some
    }

    fn check_space(&self, metric: &HammingDistance) -> (ok: bool) {
        self.size.is_some()
    }
}

} // verus!
