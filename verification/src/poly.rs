//! Releases of unlike types behind one type. A container type stands for
//! values of several types; what went in under one type comes out under
//! that type and under no other.

use crate::error::{Error, ErrorVariant, Fallible};
use crate::function::{Callable, Function};
use crate::interactive::{external_part, Answer, Query, Queryable};
use crate::measurement::Measurement;
use crate::spaces::{Measure, Metric, MetricSpace};
use std::marker::PhantomData;
use std::rc::Rc;
use vstd::prelude::*;

verus! {

/// Containers that can hold a `T`.
pub trait Polymorphic<T>: Sized {
    /// The `T` that the container holds, if it holds a `T`. A type that
    /// does not say otherwise holds none.
    open spec fn carried(&self) -> Option<T> {
        None
    }

    /// A container that holds `value`.
    fn wrap(value: T) -> (poly: Self)
        ensures
            poly.carried() == Some(value),
    ;

    /// The `T` in the container, or the container back where it holds no
    /// `T`.
    fn unwrap(self) -> (out: Result<T, Self>)
        ensures
            match self.carried() {
                Some(value) => out == Ok::<T, Self>(value),
                None => out == Err::<T, Self>(self),
            },
    ;
}

/// A container for the plain values that releases are commonly made of.
pub enum PolyValue {
    Bool(bool),
    Int32(i32),
    Int64(i64),
    UInt32(u32),
    UInt64(u64),
    Size(usize),
    Text(String),
    Unit,
}

impl Polymorphic<bool> for PolyValue {
    open spec fn carried(&self) -> Option<bool> {
        match self {
            PolyValue::Bool(value) => Some(*value),
            _ => None,
        }
    }

    fn wrap(value: bool) -> (poly: Self) {
        PolyValue::Bool(value)
    }

    fn unwrap(self) -> (out: Result<bool, Self>) {
        match self {
            PolyValue::Bool(value) => Ok(value),
            other => Err(other),
        }
    }
}

impl Polymorphic<i32> for PolyValue {
    open spec fn carried(&self) -> Option<i32> {
        match self {
            PolyValue::Int32(value) => Some(*value),
            _ => None,
        }
    }

    fn wrap(value: i32) -> (poly: Self) {
        PolyValue::Int32(value)
    }

    fn unwrap(self) -> (out: Result<i32, Self>) {
        match self {
            PolyValue::Int32(value) => Ok(value),
            other => Err(other),
        }
    }
}

impl Polymorphic<i64> for PolyValue {
    open spec fn carried(&self) -> Option<i64> {
        match self {
            PolyValue::Int64(value) => Some(*value),
            _ => None,
        }
    }

    fn wrap(value: i64) -> (poly: Self) {
        PolyValue::Int64(value)
    }

    fn unwrap(self) -> (out: Result<i64, Self>) {
        match self {
            PolyValue::Int64(value) => Ok(value),
            other => Err(other),
        }
    }
}

impl Polymorphic<u32> for PolyValue {
    open spec fn carried(&self) -> Option<u32> {
        match self {
            PolyValue::UInt32(value) => Some(*value),
            _ => None,
        }
    }

    fn wrap(value: u32) -> (poly: Self) {
        PolyValue::UInt32(value)
    }

    fn unwrap(self) -> (out: Result<u32, Self>) {
        match self {
            PolyValue::UInt32(value) => Ok(value),
            other => Err(other),
        }
    }
}

impl Polymorphic<u64> for PolyValue {
    open spec fn carried(&self) -> Option<u64> {
        match self {
            PolyValue::UInt64(value) => Some(*value),
            _ => None,
        }
    }

    fn wrap(value: u64) -> (poly: Self) {
        PolyValue::UInt64(value)
    }

    fn unwrap(self) -> (out: Result<u64, Self>) {
        match self {
            PolyValue::UInt64(value) => Ok(value),
            other => Err(other),
        }
    }
}

impl Polymorphic<usize> for PolyValue {
    open spec fn carried(&self) -> Option<usize> {
        match self {
            PolyValue::Size(value) => Some(*value),
            _ => None,
        }
    }

    fn wrap(value: usize) -> (poly: Self) {
        PolyValue::Size(value)
    }

    fn unwrap(self) -> (out: Result<usize, Self>) {
        match self {
            PolyValue::Size(value) => Ok(value),
            other => Err(other),
        }
    }
}

impl Polymorphic<String> for PolyValue {
    open spec fn carried(&self) -> Option<String> {
        match self {
            PolyValue::Text(value) => Some(*value),
            _ => None,
        }
    }

    fn wrap(value: String) -> (poly: Self) {
        PolyValue::Text(value)
    }

    fn unwrap(self) -> (out: Result<String, Self>) {
        match self {
            PolyValue::Text(value) => Ok(value),
            other => Err(other),
        }
    }
}

impl Polymorphic<()> for PolyValue {
    open spec fn carried(&self) -> Option<()> {
        match self {
            PolyValue::Unit => Some(()),
            _ => None,
        }
    }

    fn wrap(value: ()) -> (poly: Self) {
        PolyValue::Unit
    }

    fn unwrap(self) -> (out: Result<(), Self>) {
        match self {
            PolyValue::Unit => Ok(()),
            other => Err(other),
        }
    }
}

/// Whether `out` is an outcome of `function` on `arg` with the result put
/// into a container: a container that holds the result, or the failure.
pub open spec fn erased_outcome<TI, TO, P: Polymorphic<TO>>(
    function: Function<TI, TO>,
    arg: TI,
    out: Fallible<P>,
) -> bool where TI: 'static, TO: 'static {
    exists|plain: Fallible<TO>| #[trigger]
        function.outcome(arg, plain) && match plain {
            Ok(value) => out matches Ok(poly) && poly.carried() == Some(value),
            Err(e) => out == Err::<P, Error>(e),
        }
}

/// Whether `out` is an outcome of `function` on `arg` with the result
/// taken out of its container as a `TO`: the value that the container
/// holds, `FailedCast` where it holds no `TO`, or the failure of the
/// function.
pub open spec fn recovered_outcome<TI, TO, P: Polymorphic<TO>>(
    function: Function<TI, P>,
    arg: TI,
    out: Fallible<TO>,
) -> bool where TI: 'static, P: 'static {
    exists|raw: Fallible<P>| #[trigger]
        function.outcome(arg, raw) && match raw {
            Ok(poly) => match poly.carried() {
                Some(value) => out == Ok::<TO, Error>(value),
                None => out matches Err(e) && e.variant == ErrorVariant::FailedCast,
            },
            Err(e) => out == Err::<TO, Error>(e),
        }
}

/// A function whose results are put into a container, as a callable.
#[verifier::reject_recursive_types(TI)]
#[verifier::reject_recursive_types(TO)]
#[verifier::reject_recursive_types(P)]
pub struct Erased<TI, TO, P> {
    pub function: Function<TI, TO>,
    pub container: PhantomData<P>,
}

impl<TI: 'static, TO: 'static, P: Polymorphic<TO>> Callable<TI, P> for Erased<TI, TO, P> {
    open spec fn outcome(&self, arg: TI, out: Fallible<P>) -> bool {
        erased_outcome(self.function, arg, out)
    }

    fn call(&self, arg: &TI) -> (out: Fallible<P>) {
        let plain = self.function.eval(arg);
        assert(self.function.outcome(*arg, plain));
        match plain {
            Ok(value) => Ok(P::wrap(value)),
            Err(e) => Err(e),
        }
    }
}

impl<TI: 'static, TO: 'static> Function<TI, TO> {
    /// This function with its results put into containers of type `P`.
    pub fn into_poly<P: Polymorphic<TO> + 'static>(self) -> (poly: Function<TI, P>)
        ensures
            forall|arg: TI, out: Fallible<P>| #[trigger]
                poly.outcome(arg, out) <==> erased_outcome(self, arg, out),
    {
        let callable: Erased<TI, TO, P> = Erased { function: self, container: PhantomData };
        let boxed: Box<dyn Callable<TI, P>> = Box::new(callable);
        assert(forall|arg: TI, out: Fallible<P>| #[trigger]
            boxed.outcome(arg, out) <==> callable.outcome(arg, out));
        let shared = Rc::new(boxed);
        assert(forall|arg: TI, out: Fallible<P>| #[trigger]
            shared.outcome(arg, out) <==> callable.outcome(arg, out));
        Function { function: shared }
    }

    /// Calls the function and takes the result out of its container as a
    /// `T`. Fails with `FailedCast` where the container holds no `T`.
    pub fn eval_poly<T>(&self, arg: &TI) -> (out: Fallible<T>) where TO: Polymorphic<T>
        ensures
            recovered_outcome(*self, *arg, out),
    {
        let raw = self.eval(arg);
        assert(self.outcome(*arg, raw));
        match raw {
            Ok(poly) => match poly.unwrap() {
                Ok(value) => Ok(value),
                Err(_) => Err(
                    Error::new(
                        ErrorVariant::FailedCast,
                        "Failed downcast of eval_poly result to the type asked for",
                    ),
                ),
            },
            Err(e) => Err(e),
        }
    }
}

impl<DI, TO, MI, MO> Measurement<DI, TO, MI, MO> where
    DI: MetricSpace<MI>,
    TO: 'static,
    MI: Metric,
    MO: Measure,
    DI::Carrier: 'static,
    MI::Distance: 'static,
    MO::Distance: 'static,
 {
    /// This measurement with its releases put into containers of type `P`,
    /// so that measurements with unlike releases are of one type.
    pub fn into_poly<P: Polymorphic<TO> + 'static>(self) -> (poly: Measurement<DI, P, MI, MO>)
        ensures
            poly.input_domain == self.input_domain,
            poly.input_metric == self.input_metric,
            poly.output_measure == self.output_measure,
            poly.privacy_map == self.privacy_map,
            forall|arg: DI::Carrier, out: Fallible<P>| #[trigger]
                poly.function.outcome(arg, out) <==> erased_outcome(self.function, arg, out),
    {
        Measurement {
            input_domain: self.input_domain,
            function: self.function.into_poly(),
            input_metric: self.input_metric,
            output_measure: self.output_measure,
            privacy_map: self.privacy_map,
        }
    }

    /// Runs the measurement and takes the release out of its container as
    /// a `T`. Fails with `FailedCast` where the container holds no `T`.
    pub fn invoke_poly<T>(&self, arg: &DI::Carrier) -> (out: Fallible<T>) where TO: Polymorphic<T>
        ensures
            recovered_outcome(self.function, *arg, out),
    {
        self.function.eval_poly(arg)
    }
}

/// Whether `out` is what is taken, as a `T`, out of the answer `answer` of
/// a queryable: the value that the container holds, `FailedCast` where it
/// holds no `T`, or the failure.
pub open spec fn recovered<T, P: Polymorphic<T>>(answer: Fallible<P>, out: Fallible<T>) -> bool {
    match answer {
        Ok(poly) => match poly.carried() {
            Some(value) => out == Ok::<T, Error>(value),
            None => out matches Err(e) && e.variant == ErrorVariant::FailedCast,
        },
        Err(e) => out == Err::<T, Error>(e),
    }
}

/// Asks a queryable whose answers are containers, and takes the answer
/// out of its container as a `T`. Fails with `FailedCast` where the
/// container holds no `T`.
pub fn eval_poly<QB, Q, P, T>(queryable: &mut QB, query: &Q) -> (out: Fallible<T>) where
    QB: Queryable<Q, P>,
    P: Polymorphic<T>,

    ensures
        exists|raw: Fallible<Answer<P>>, answer: Fallible<P>|
            {
                &&& #[trigger] old(queryable).transition(
                    Query::External(query),
                    final(queryable),
                    raw,
                )
                &&& #[trigger] external_part(raw, answer)
                &&& recovered(answer, out)
            },
{
    let answer = queryable.eval(query);
    match answer {
        Ok(poly) => match poly.unwrap() {
            Ok(value) => Ok(value),
            Err(_) => Err(
                Error::new(
                    ErrorVariant::FailedCast,
                    "Failed downcast of the answer to the type asked for",
                ),
            ),
        },
        Err(e) => Err(e),
    }
}

} // verus!
