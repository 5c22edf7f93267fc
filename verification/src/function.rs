//! Functions between carriers: what a transformation or a measurement
//! computes, given as a shared, immutable callable that may fail.

use crate::error::{Error, Fallible};
use std::marker::PhantomData;
use std::rc::Rc;
use vstd::prelude::*;

verus! {

/// Something that can be called on a `TI` and gives a `TO` or fails.
///
/// A call may involve chance, so the behaviour is given as a relation: which
/// outcomes a call on an argument may have.
pub trait Callable<TI, TO> {
    /// Whether a call on `arg` may end in `out`.
    spec fn outcome(&self, arg: TI, out: Fallible<TO>) -> bool;

    /// Calls on `arg`.
    fn call(&self, arg: &TI) -> (out: Fallible<TO>)
        ensures
            self.outcome(*arg, out),
    ;
}

/// A closure that cannot fail, as a callable.
#[verifier::reject_recursive_types(TI)]
#[verifier::reject_recursive_types(TO)]
pub struct Pure<TI, TO, F: Fn(&TI) -> TO> {
    f: F,
    carriers: PhantomData<(TI, TO)>,
}

impl<TI, TO, F: Fn(&TI) -> TO> Pure<TI, TO, F> {
    #[verifier::type_invariant]
    spec fn total(&self) -> bool {
        forall|arg: &TI| call_requires(self.f, (arg,))
    }

    /// The closure inside.
    pub closed spec fn inner(&self) -> F {
        self.f
    }

    /// Wraps a closure that can be called on every argument.
    pub fn new(f: F) -> (pure: Self)
        requires
            forall|arg: &TI| call_requires(f, (arg,)),
        ensures
            pure.inner() == f,
    {
        Pure { f, carriers: PhantomData }
    }
}

impl<TI, TO, F: Fn(&TI) -> TO> Callable<TI, TO> for Pure<TI, TO, F> {
    open spec fn outcome(&self, arg: TI, out: Fallible<TO>) -> bool {
        out matches Ok(value) && call_ensures(self.inner(), (&arg,), value)
    }

    fn call(&self, arg: &TI) -> (out: Fallible<TO>) {
        proof {
            use_type_invariant(self);
        }
        Ok((self.f)(arg))
    }
}

/// A closure that may fail, as a callable.
#[verifier::reject_recursive_types(TI)]
#[verifier::reject_recursive_types(TO)]
pub struct Failing<TI, TO, F: Fn(&TI) -> Fallible<TO>> {
    f: F,
    carriers: PhantomData<(TI, TO)>,
}

impl<TI, TO, F: Fn(&TI) -> Fallible<TO>> Failing<TI, TO, F> {
    #[verifier::type_invariant]
    spec fn total(&self) -> bool {
        forall|arg: &TI| call_requires(self.f, (arg,))
    }

    /// The closure inside.
    pub closed spec fn inner(&self) -> F {
        self.f
    }

    /// Wraps a closure that can be called on every argument.
    pub fn new(f: F) -> (failing: Self)
        requires
            forall|arg: &TI| call_requires(f, (arg,)),
        ensures
            failing.inner() == f,
    {
        Failing { f, carriers: PhantomData }
    }
}

impl<TI, TO, F: Fn(&TI) -> Fallible<TO>> Callable<TI, TO> for Failing<TI, TO, F> {
    open spec fn outcome(&self, arg: TI, out: Fallible<TO>) -> bool {
        call_ensures(self.inner(), (&arg,), out)
    }

    fn call(&self, arg: &TI) -> (out: Fallible<TO>) {
        proof {
            use_type_invariant(self);
        }
        (self.f)(arg)
    }
}

/// `Rc::clone` of std: a second handle on the same value, so the value the
/// new handle stands for is that of the old one.
#[verifier::external_body]
fn share<T>(handle: &Rc<T>) -> (shared: Rc<T>)
    ensures
        shared == *handle,
{
    Rc::clone(handle)
}

/// A function from `TI` to `TO` that may fail. It is immutable and shared:
/// a copy is another handle on the same callable.
#[verifier::reject_recursive_types(TI)]
#[verifier::reject_recursive_types(TO)]
pub struct Function<TI, TO> {
    pub function: Rc<Box<dyn Callable<TI, TO>>>,
}

/// The outcomes of calling `inner` and then, on what it returned, `outer`.
/// A failure of `inner` is the failure of the whole; `outer` is then not
/// called.
pub open spec fn chain_outcome<TI, TX, TO>(
    outer: Function<TX, TO>,
    inner: Function<TI, TX>,
    arg: TI,
    out: Fallible<TO>,
) -> bool {
    ||| exists|mid: TX| #[trigger] inner.outcome(arg, Ok(mid)) && outer.outcome(mid, out)
    ||| exists|e: Error| #[trigger] inner.outcome(arg, Err(e)) && out == Err::<TO, Error>(e)
}

/// Two functions called one after the other, as a callable.
#[verifier::reject_recursive_types(TI)]
#[verifier::reject_recursive_types(TX)]
#[verifier::reject_recursive_types(TO)]
pub struct Chain<TI, TX, TO> {
    pub outer: Function<TX, TO>,
    pub inner: Function<TI, TX>,
}

impl<TI: 'static, TX: 'static, TO: 'static> Callable<TI, TO> for Chain<TI, TX, TO> {
    open spec fn outcome(&self, arg: TI, out: Fallible<TO>) -> bool {
        chain_outcome(self.outer, self.inner, arg, out)
    }

    fn call(&self, arg: &TI) -> (out: Fallible<TO>) {
        match self.inner.eval(arg) {
            Ok(mid) => self.outer.eval(&mid),
            Err(e) => Err(e),
        }
    }
}

impl<TI, TO> Clone for Function<TI, TO> {
    fn clone(&self) -> (copy: Self)
        ensures
            copy == *self,
    {
        Function { function: share(&self.function) }
    }
}

impl<TI: 'static, TO: 'static> Function<TI, TO> {
    /// Whether evaluating on `arg` may end in `out`.
    pub open spec fn outcome(&self, arg: TI, out: Fallible<TO>) -> bool {
        self.function.outcome(arg, out)
    }

    /// A function that never fails: whatever `function` returns is the
    /// result.
    pub fn new<F: Fn(&TI) -> TO + 'static>(function: F) -> (wrapped: Self)
        requires
            forall|arg: &TI| call_requires(function, (arg,)),
        ensures
            forall|arg: TI, out: Fallible<TO>| #[trigger]
                wrapped.outcome(arg, out) <==> (out matches Ok(value) && call_ensures(
                    function,
                    (&arg,),
                    value,
                )),
    {
        let callable = Pure::new(function);
        let boxed: Box<dyn Callable<TI, TO>> = Box::new(callable);
        assert(forall|arg: TI, out: Fallible<TO>| #[trigger]
            boxed.outcome(arg, out) <==> callable.outcome(arg, out));
        let shared = Rc::new(boxed);
        assert(forall|arg: TI, out: Fallible<TO>| #[trigger]
            shared.outcome(arg, out) <==> callable.outcome(arg, out));
        Function { function: shared }
    }

    /// A function that may fail: whatever `function` returns is the outcome.
    pub fn new_fallible<F: Fn(&TI) -> Fallible<TO> + 'static>(function: F) -> (wrapped: Self)
        requires
            forall|arg: &TI| call_requires(function, (arg,)),
        ensures
            forall|arg: TI, out: Fallible<TO>| #[trigger]
                wrapped.outcome(arg, out) <==> call_ensures(function, (&arg,), out),
    {
        let callable = Failing::new(function);
        let boxed: Box<dyn Callable<TI, TO>> = Box::new(callable);
        assert(forall|arg: TI, out: Fallible<TO>| #[trigger]
            boxed.outcome(arg, out) <==> callable.outcome(arg, out));
        let shared = Rc::new(boxed);
        assert(forall|arg: TI, out: Fallible<TO>| #[trigger]
            shared.outcome(arg, out) <==> callable.outcome(arg, out));
        Function { function: shared }
    }

    /// Calls the function on `arg`.
    pub fn eval(&self, arg: &TI) -> (out: Fallible<TO>)
        ensures
            self.outcome(*arg, out),
    {
        self.function.call(arg)
    }

    /// The function `x ↦ function1(function0(x))`. Where `function0` fails,
    /// that failure is the outcome and `function1` is not called.
    pub fn make_chain<TX: 'static>(
        function1: &Function<TX, TO>,
        function0: &Function<TI, TX>,
    ) -> (chained: Function<TI, TO>)
        ensures
            forall|arg: TI, out: Fallible<TO>| #[trigger]
                chained.outcome(arg, out) <==> chain_outcome(*function1, *function0, arg, out),
    {
        let callable = Chain { outer: function1.clone(), inner: function0.clone() };
        let boxed: Box<dyn Callable<TI, TO>> = Box::new(callable);
        assert(forall|arg: TI, out: Fallible<TO>| #[trigger]
            boxed.outcome(arg, out) <==> callable.outcome(arg, out));
        let shared = Rc::new(boxed);
        assert(forall|arg: TI, out: Fallible<TO>| #[trigger]
            shared.outcome(arg, out) <==> callable.outcome(arg, out));
        Function { function: shared }
    }
}

} // verus!
