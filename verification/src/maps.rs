//! Stability maps and privacy maps: from a bound on the distance between
//! inputs to a bound on the distance, or the privacy loss, between outputs.

use crate::error::{Error, Fallible};
use crate::function::{chain_outcome, Callable, Function};
use crate::spaces::{Measure, Metric};
use crate::traits::arithmetic::{converts, InfCast, InfMul, Integer, IntegerCast};
use crate::traits::ordering::answers;
use std::rc::Rc;
use vstd::prelude::*;

verus! {

/// What the constant map with factor `c` gives on `d_in`: `d_in`, converted
/// to the type of `c` and multiplied by `c`, both rounding up. `None` where
/// `d_in` does not convert or the product does not exist.
pub open spec fn constant_map<QI, QO: InfCast<QI> + InfMul>(c: QO, d_in: QI) -> Option<QO> {
    match QO::inf_cast_spec(d_in) {
        Some(d) => d.inf_mul_spec(&c),
        None => None,
    }
}

/// Whether `out` is an outcome of the constant map with factor `c` on
/// `d_in`: the value of `constant_map`, or `FailedCast` where `d_in` does
/// not convert, or `FailedFunction` where the product does not exist.
pub open spec fn constant_outcome<QI, QO: InfCast<QI> + InfMul>(
    c: QO,
    d_in: QI,
    out: Fallible<QO>,
) -> bool {
    match QO::inf_cast_spec(d_in) {
        Some(d) => answers(out, d.inf_mul_spec(&c)),
        None => converts(out, None),
    }
}

/// The map `d_in ↦ c * d_in`, as a callable.
pub struct Constant<QO> {
    pub c: QO,
}

impl<QI: Copy, QO: InfCast<QI> + InfMul> Callable<QI, QO> for Constant<QO> {
    open spec fn outcome(&self, arg: QI, out: Fallible<QO>) -> bool {
        constant_outcome(self.c, arg, out)
    }

    fn call(&self, arg: &QI) -> (out: Fallible<QO>) {
        match QO::inf_cast(*arg) {
            Ok(d) => d.inf_mul(&self.c),
            Err(e) => Err(e),
        }
    }
}

/// A constant map with a factor that is not negative never gives less on a
/// greater distance: where it has a value on `d2`, and `0 <= d1 <= d2`, it
/// has a value on `d1` that is not greater. Where the map has a value, that
/// value is its one outcome.
pub proof fn constant_map_is_monotone<QI: Integer, QO: IntegerCast<QI>>(c: QO, d1: QI, d2: QI)
    requires
        0 <= c.value(),
        0 <= d1.value() <= d2.value(),
    ensures
        constant_map(c, d2) matches Some(bound2) ==> (constant_map(c, d1) matches Some(bound1)
            && bound1.value() <= bound2.value()),
        constant_map(c, d1) matches Some(bound1) ==> forall|out: Fallible<QO>|
            constant_outcome(c, d1, out) <==> out == Ok::<QO, Error>(bound1),
        constant_map(c, d2) matches Some(bound2) ==> forall|out: Fallible<QO>|
            constant_outcome(c, d2, out) <==> out == Ok::<QO, Error>(bound2),
{
    QO::cast_model(d1);
    QO::cast_model(d2);
    QI::model(d1, d2);
    if constant_map(c, d2) is Some {
        let e1 = QO::inf_cast_spec(d1)->Some_0;
        let e2 = QO::inf_cast_spec(d2)->Some_0;
        QO::model(e1, c);
        QO::model(e2, c);
        assert(e1.value() * c.value() <= e2.value() * c.value()) by (nonlinear_arith)
            requires
                0 <= c.value(),
                e1.value() <= e2.value(),
        ;
    }
}

/// Bounds the distance between the outputs of a transformation by the
/// distance between its inputs.
#[verifier::reject_recursive_types(MI)]
#[verifier::reject_recursive_types(MO)]
pub struct StabilityMap<MI: Metric, MO: Metric> {
    pub map: Function<MI::Distance, MO::Distance>,
}

impl<MI: Metric, MO: Metric> Clone for StabilityMap<MI, MO> {
    fn clone(&self) -> (copy: Self)
        ensures
            copy == *self,
    {
        StabilityMap { map: self.map.clone() }
    }
}

impl<MI: Metric, MO: Metric> StabilityMap<MI, MO> where MI::Distance: 'static, MO::Distance: 'static {
    /// Whether evaluating on `d_in` may end in `out`.
    #[verifier::inline]
    pub open spec fn outcome(&self, d_in: MI::Distance, out: Fallible<MO::Distance>) -> bool {
        self.map.outcome(d_in, out)
    }

    /// The map that `map` computes.
    pub fn new<F: Fn(&MI::Distance) -> MO::Distance + 'static>(map: F) -> (wrapped: Self)
        requires
            forall|d_in: &MI::Distance| call_requires(map, (d_in,)),
        ensures
            forall|d_in: MI::Distance, out: Fallible<MO::Distance>| #[trigger]
                wrapped.outcome(d_in, out) <==> (out matches Ok(d_out) && call_ensures(
                    map,
                    (&d_in,),
                    d_out,
                )),
    {
        StabilityMap { map: Function::new(map) }
    }

    /// The map that `map` computes, which may fail.
    pub fn new_fallible<F: Fn(&MI::Distance) -> Fallible<MO::Distance> + 'static>(map: F) -> (wrapped:
        Self)
        requires
            forall|d_in: &MI::Distance| call_requires(map, (d_in,)),
        ensures
            forall|d_in: MI::Distance, out: Fallible<MO::Distance>| #[trigger]
                wrapped.outcome(d_in, out) <==> call_ensures(map, (&d_in,), out),
    {
        StabilityMap { map: Function::new_fallible(map) }
    }

    /// The map given by a forward bound: `forward_map` closes over what was
    /// computed beforehand and gives the least bound for each `d_in`.
    pub fn new_from_forward<F: Fn(&MI::Distance) -> Fallible<MO::Distance> + 'static>(
        forward_map: F,
    ) -> (wrapped: Self)
        requires
            forall|d_in: &MI::Distance| call_requires(forward_map, (d_in,)),
        ensures
            forall|d_in: MI::Distance, out: Fallible<MO::Distance>| #[trigger]
                wrapped.outcome(d_in, out) <==> call_ensures(forward_map, (&d_in,), out),
    {
        Self::new_fallible(forward_map)
    }

    /// The map `d_in ↦ c * d_in`, rounding up.
    pub fn new_from_constant(c: MO::Distance) -> (wrapped: Self) where
        MI::Distance: Copy,
        MO::Distance: InfCast<MI::Distance> + InfMul,

        ensures
            forall|d_in: MI::Distance, out: Fallible<MO::Distance>| #[trigger]
                wrapped.outcome(d_in, out) <==> constant_outcome(c, d_in, out),
    {
        let callable = Constant { c };
        let boxed: Box<dyn Callable<MI::Distance, MO::Distance>> = Box::new(callable);
        assert(forall|d_in: MI::Distance, out: Fallible<MO::Distance>| #[trigger]
            boxed.outcome(d_in, out) <==> callable.outcome(d_in, out));
        let shared = Rc::new(boxed);
        assert(forall|d_in: MI::Distance, out: Fallible<MO::Distance>| #[trigger]
            shared.outcome(d_in, out) <==> callable.outcome(d_in, out));
        StabilityMap { map: Function { function: shared } }
    }

    /// Bounds the output distance for inputs that are `d_in` apart.
    pub fn eval(&self, d_in: &MI::Distance) -> (out: Fallible<MO::Distance>)
        ensures
            self.outcome(*d_in, out),
    {
        self.map.eval(d_in)
    }

    /// The map `d_in ↦ map1(map0(d_in))`.
    pub fn make_chain<MX: Metric>(map1: &StabilityMap<MX, MO>, map0: &StabilityMap<MI, MX>) -> (chained:
        Self) where MX::Distance: 'static
        ensures
            forall|d_in: MI::Distance, out: Fallible<MO::Distance>| #[trigger]
                chained.outcome(d_in, out) <==> chain_outcome(map1.map, map0.map, d_in, out),
    {
        StabilityMap { map: Function::make_chain(&map1.map, &map0.map) }
    }
}

/// Bounds the privacy loss of a measurement by the distance between its
/// inputs.
#[verifier::reject_recursive_types(MI)]
#[verifier::reject_recursive_types(MO)]
pub struct PrivacyMap<MI: Metric, MO: Measure> {
    pub map: Function<MI::Distance, MO::Distance>,
}

impl<MI: Metric, MO: Measure> Clone for PrivacyMap<MI, MO> {
    fn clone(&self) -> (copy: Self)
        ensures
            copy == *self,
    {
        PrivacyMap { map: self.map.clone() }
    }
}

impl<MI: Metric, MO: Measure> PrivacyMap<MI, MO> where MI::Distance: 'static, MO::Distance: 'static {
    /// Whether evaluating on `d_in` may end in `out`.
    #[verifier::inline]
    pub open spec fn outcome(&self, d_in: MI::Distance, out: Fallible<MO::Distance>) -> bool {
        self.map.outcome(d_in, out)
    }

    /// The map that `map` computes.
    pub fn new<F: Fn(&MI::Distance) -> MO::Distance + 'static>(map: F) -> (wrapped: Self)
        requires
            forall|d_in: &MI::Distance| call_requires(map, (d_in,)),
        ensures
            forall|d_in: MI::Distance, out: Fallible<MO::Distance>| #[trigger]
                wrapped.outcome(d_in, out) <==> (out matches Ok(d_out) && call_ensures(
                    map,
                    (&d_in,),
                    d_out,
                )),
    {
        PrivacyMap { map: Function::new(map) }
    }

    /// The map that `map` computes, which may fail.
    pub fn new_fallible<F: Fn(&MI::Distance) -> Fallible<MO::Distance> + 'static>(map: F) -> (wrapped:
        Self)
        requires
            forall|d_in: &MI::Distance| call_requires(map, (d_in,)),
        ensures
            forall|d_in: MI::Distance, out: Fallible<MO::Distance>| #[trigger]
                wrapped.outcome(d_in, out) <==> call_ensures(map, (&d_in,), out),
    {
        PrivacyMap { map: Function::new_fallible(map) }
    }

    /// The map given by a forward bound: `forward_map` closes over what was
    /// computed beforehand and gives the least bound for each `d_in`.
    pub fn new_from_forward<F: Fn(&MI::Distance) -> Fallible<MO::Distance> + 'static>(
        forward_map: F,
    ) -> (wrapped: Self)
        requires
            forall|d_in: &MI::Distance| call_requires(forward_map, (d_in,)),
        ensures
            forall|d_in: MI::Distance, out: Fallible<MO::Distance>| #[trigger]
                wrapped.outcome(d_in, out) <==> call_ensures(forward_map, (&d_in,), out),
    {
        Self::new_fallible(forward_map)
    }

    /// The map `d_in ↦ c * d_in`, rounding up.
    pub fn new_from_constant(c: MO::Distance) -> (wrapped: Self) where
        MI::Distance: Copy,
        MO::Distance: InfCast<MI::Distance> + InfMul,

        ensures
            forall|d_in: MI::Distance, out: Fallible<MO::Distance>| #[trigger]
                wrapped.outcome(d_in, out) <==> constant_outcome(c, d_in, out),
    {
        let callable = Constant { c };
        let boxed: Box<dyn Callable<MI::Distance, MO::Distance>> = Box::new(callable);
        assert(forall|d_in: MI::Distance, out: Fallible<MO::Distance>| #[trigger]
            boxed.outcome(d_in, out) <==> callable.outcome(d_in, out));
        let shared = Rc::new(boxed);
        assert(forall|d_in: MI::Distance, out: Fallible<MO::Distance>| #[trigger]
            shared.outcome(d_in, out) <==> callable.outcome(d_in, out));
        PrivacyMap { map: Function { function: shared } }
    }

    /// Bounds the privacy loss for inputs that are `d_in` apart.
    pub fn eval(&self, d_in: &MI::Distance) -> (out: Fallible<MO::Distance>)
        ensures
            self.outcome(*d_in, out),
    {
        self.map.eval(d_in)
    }

    /// The map `d_in ↦ map1(map0(d_in))`.
    pub fn make_chain<MX: Metric>(map1: &PrivacyMap<MX, MO>, map0: &StabilityMap<MI, MX>) -> (chained:
        Self) where MX::Distance: 'static
        ensures
            forall|d_in: MI::Distance, out: Fallible<MO::Distance>| #[trigger]
                chained.outcome(d_in, out) <==> chain_outcome(map1.map, map0.map, d_in, out),
    {
        PrivacyMap { map: Function::make_chain(&map1.map, &map0.map) }
    }
}

} // verus!
