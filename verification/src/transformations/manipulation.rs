//! Transformations that work on a dataset row by row.

use crate::domains::{AllDomain, VectorDomain};
use crate::error::{Error, ErrorVariant, Fallible};
use crate::function::{Callable, Failing, Function, Pure};
use crate::maps::{constant_outcome, StabilityMap};
use crate::metrics::{IntDistance, SymmetricDistance};
use crate::spaces::{Component, Domain, Metric, MetricSpace};
use crate::traits::arithmetic::{InfCast, InfMul, One};
use crate::traits::checks::CheckNull;
use crate::transformation::Transformation;
use std::marker::PhantomData;
use std::rc::Rc;
use vstd::prelude::*;

verus! {

/// Domains of datasets: collections of rows of one domain.
pub trait DatasetDomain: Domain {
    type RowDomain: Domain;
}

impl<D: Domain> DatasetDomain for VectorDomain<D> {
    type RowDomain = D;
}

/// Domains of datasets whose rows can be mapped, one by one, to the rows
/// of a dataset of the domain `DO`.
pub trait RowByRowDomain<DO: DatasetDomain>: DatasetDomain {
    /// Whether applying a row function to the rows of `value` may end in
    /// `out`, where `row_outcome` tells which outcomes the row function may
    /// have on a row. A type that does not say otherwise promises nothing.
    open spec fn rows_outcome(
        value: Self::Carrier,
        row_outcome: spec_fn(
            <Self::RowDomain as Domain>::Carrier,
            Fallible<<DO::RowDomain as Domain>::Carrier>,
        ) -> bool,
        out: Fallible<DO::Carrier>,
    ) -> bool {
        true
    }

    /// The dataset of what `row_function` gives on each row of `value`.
    /// The first failure of `row_function` is the failure of the whole.
    fn apply_rows<C>(value: &Self::Carrier, row_function: &C) -> (out: Fallible<DO::Carrier>) where
        C: Callable<<Self::RowDomain as Domain>::Carrier, <DO::RowDomain as Domain>::Carrier>,

        ensures
            Self::rows_outcome(*value, outcomes_of(*row_function), out),
    ;
}

/// The outcomes of a callable, as a relation.
pub open spec fn outcomes_of<TI, TO, C: Callable<TI, TO>>(callable: C) -> spec_fn(
    TI,
    Fallible<TO>,
) -> bool {
    |arg: TI, out: Fallible<TO>| callable.outcome(arg, out)
}

/// Whether `results` are results of `row_function` on the first rows of
/// `rows`, in their order.
pub open spec fn rows_succeed<TI, TO>(
    rows: Seq<TI>,
    row_outcome: spec_fn(TI, Fallible<TO>) -> bool,
    results: Seq<TO>,
) -> bool {
    &&& results.len() <= rows.len()
    &&& forall|i: int| 0 <= i < results.len() ==> #[trigger] row_outcome(rows[i], Ok(results[i]))
}

/// Whether applying `row_function` to `rows` from the front may end in
/// `out`: the results in the order of the rows, or the first failure.
pub open spec fn vector_rows_outcome<TI, TO>(
    rows: Seq<TI>,
    row_outcome: spec_fn(TI, Fallible<TO>) -> bool,
    out: Fallible<Vec<TO>>,
) -> bool {
    match out {
        Ok(results) => results@.len() == rows.len() && rows_succeed(rows, row_outcome, results@),
        Err(e) => exists|results: Seq<TO>| #[trigger]
            rows_succeed(rows, row_outcome, results) && results.len() < rows.len() && row_outcome(
                rows[results.len() as int],
                Err(e),
            ),
    }
}

impl<DIA: Domain, DOA: Domain> RowByRowDomain<VectorDomain<DOA>> for VectorDomain<DIA> {
    open spec fn rows_outcome(
        value: Vec<DIA::Carrier>,
        row_outcome: spec_fn(DIA::Carrier, Fallible<DOA::Carrier>) -> bool,
        out: Fallible<Vec<DOA::Carrier>>,
    ) -> bool {
        vector_rows_outcome(value@, row_outcome, out)
    }

    fn apply_rows<C>(value: &Vec<DIA::Carrier>, row_function: &C) -> (out: Fallible<
        Vec<DOA::Carrier>,
    >) where C: Callable<DIA::Carrier, DOA::Carrier> {
        let mut results: Vec<DOA::Carrier> = Vec::new();
        let mut i: usize = 0;
        while i < value.len()
            invariant
                i <= value@.len(),
                results@.len() == i,
                rows_succeed(value@, outcomes_of(*row_function), results@),
            decreases value@.len() - i,
        {
            match row_function.call(&value[i]) {
                Ok(result) => {
                    assert(outcomes_of(*row_function)(value@[i as int], Ok(result)));
                    results.push(result);
                },
                Err(e) => {
                    assert(outcomes_of(*row_function)(value@[i as int], Err(e)));
                    return Err(e);
                },
            }
            i += 1;
        }
        Ok(results)
    }
}

/// A row function applied to every row of a dataset, as a callable.
#[verifier::reject_recursive_types(DI)]
#[verifier::reject_recursive_types(DO)]
pub struct RowByRow<DI, DO, C> {
    pub row_function: C,
    pub domains: PhantomData<(DI, DO)>,
}

impl<DI, DO, C> Callable<DI::Carrier, DO::Carrier> for RowByRow<DI, DO, C> where
    DI: RowByRowDomain<DO>,
    DO: DatasetDomain,
    C: Callable<<DI::RowDomain as Domain>::Carrier, <DO::RowDomain as Domain>::Carrier>,
 {
    open spec fn outcome(&self, arg: DI::Carrier, out: Fallible<DO::Carrier>) -> bool {
        DI::rows_outcome(arg, outcomes_of(self.row_function), out)
    }

    fn call(&self, arg: &DI::Carrier) -> (out: Fallible<DO::Carrier>) {
        DI::apply_rows(arg, &self.row_function)
    }
}

/// Whether `out` is what making a row-by-row transformation gives: a
/// transformation between the two domains, under one metric, that applies
/// to every row a function with the outcomes `row_outcome`, and moves
/// datasets no further apart than they were; or `MakeTransformation` where
/// the metric is not defined on one of the domains.
pub open spec fn row_by_row_made<DI, DO, M>(
    input_domain: DI,
    input_metric: M,
    output_domain: DO,
    row_outcome: spec_fn(
        <DI::RowDomain as Domain>::Carrier,
        Fallible<<DO::RowDomain as Domain>::Carrier>,
    ) -> bool,
    out: Fallible<Transformation<DI, DO, M, M>>,
) -> bool where
    DI: RowByRowDomain<DO> + MetricSpace<M>,
    DO: DatasetDomain + MetricSpace<M>,
    M: Metric<Distance = IntDistance>,
    DI::Carrier: 'static,
    DO::Carrier: 'static,
 {
    match out {
        Ok(transformation) => {
            &&& transformation.wf()
            &&& transformation.input_domain == input_domain
            &&& transformation.output_domain == output_domain
            &&& transformation.input_metric == input_metric
            &&& transformation.output_metric == input_metric
            &&& forall|arg: DI::Carrier, res: Fallible<DO::Carrier>| #[trigger]
                transformation.function.outcome(arg, res) <==> DI::rows_outcome(
                    arg,
                    row_outcome,
                    res,
                )
            &&& forall|d_in: IntDistance, d_out: Fallible<IntDistance>| #[trigger]
                transformation.stability_map.outcome(d_in, d_out) <==> constant_outcome(
                    1u32,
                    d_in,
                    d_out,
                )
        },
        Err(e) => {
            &&& e.variant == ErrorVariant::MakeTransformation
            &&& !(input_domain.admits(&input_metric) && output_domain.admits(&input_metric))
        },
    }
}

/// The transformation that applies the callable `row_function` to every
/// row.
pub fn make_row_by_row_with<DI, DO, M, C>(
    input_domain: DI,
    input_metric: M,
    output_domain: DO,
    row_function: C,
) -> (out: Fallible<Transformation<DI, DO, M, M>>) where
    DI: RowByRowDomain<DO> + MetricSpace<M> + 'static,
    DO: DatasetDomain + MetricSpace<M> + 'static,
    M: Metric<Distance = IntDistance>,
    C: Callable<<DI::RowDomain as Domain>::Carrier, <DO::RowDomain as Domain>::Carrier> + 'static,
    DI::Carrier: 'static,
    DO::Carrier: 'static,

    ensures
        row_by_row_made(input_domain, input_metric, output_domain, outcomes_of(row_function), out),
{
    let callable: RowByRow<DI, DO, C> = RowByRow { row_function, domains: PhantomData };
    let boxed: Box<dyn Callable<DI::Carrier, DO::Carrier>> = Box::new(callable);
    assert(forall|arg: DI::Carrier, res: Fallible<DO::Carrier>| #[trigger]
        boxed.outcome(arg, res) <==> callable.outcome(arg, res));
    let shared = Rc::new(boxed);
    assert(forall|arg: DI::Carrier, res: Fallible<DO::Carrier>| #[trigger]
        shared.outcome(arg, res) <==> callable.outcome(arg, res));
    let output_metric = input_metric.duplicate();
    Transformation::new(
        input_domain,
        output_domain,
        Function { function: shared },
        input_metric,
        output_metric,
        StabilityMap::new_from_constant(1),
    )
}

/// The transformation that applies `row_function`, which cannot fail, to
/// every row.
pub fn make_row_by_row<DI, DO, M, F>(
    input_domain: DI,
    input_metric: M,
    output_domain: DO,
    row_function: F,
) -> (out: Fallible<Transformation<DI, DO, M, M>>) where
    DI: RowByRowDomain<DO> + MetricSpace<M> + 'static,
    DO: DatasetDomain + MetricSpace<M> + 'static,
    M: Metric<Distance = IntDistance>,
    F: Fn(&<DI::RowDomain as Domain>::Carrier) -> <DO::RowDomain as Domain>::Carrier + 'static,
    DI::Carrier: 'static,
    DO::Carrier: 'static,
    <DI::RowDomain as Domain>::Carrier: 'static,
    <DO::RowDomain as Domain>::Carrier: 'static,

    requires
        forall|row: &<DI::RowDomain as Domain>::Carrier| call_requires(row_function, (row,)),
    ensures
        row_by_row_made(
            input_domain,
            input_metric,
            output_domain,
            |
                row: <DI::RowDomain as Domain>::Carrier,
                res: Fallible<<DO::RowDomain as Domain>::Carrier>,
            |
                res matches Ok(value) && call_ensures(row_function, (&row,), value),
            out,
        ),
{
    let pure = Pure::new(row_function);
    assert(outcomes_of(pure) =~= (|
        row: <DI::RowDomain as Domain>::Carrier,
        res: Fallible<<DO::RowDomain as Domain>::Carrier>,
    | res matches Ok(value) && call_ensures(row_function, (&row,), value)));
    make_row_by_row_with(input_domain, input_metric, output_domain, pure)
}

/// The transformation that applies `row_function`, which may fail, to
/// every row.
pub fn make_row_by_row_fallible<DI, DO, M, F>(
    input_domain: DI,
    input_metric: M,
    output_domain: DO,
    row_function: F,
) -> (out: Fallible<Transformation<DI, DO, M, M>>) where
    DI: RowByRowDomain<DO> + MetricSpace<M> + 'static,
    DO: DatasetDomain + MetricSpace<M> + 'static,
    M: Metric<Distance = IntDistance>,
    F: Fn(&<DI::RowDomain as Domain>::Carrier) -> Fallible<<DO::RowDomain as Domain>::Carrier>
        + 'static,
    DI::Carrier: 'static,
    DO::Carrier: 'static,
    <DI::RowDomain as Domain>::Carrier: 'static,
    <DO::RowDomain as Domain>::Carrier: 'static,

    requires
        forall|row: &<DI::RowDomain as Domain>::Carrier| call_requires(row_function, (row,)),
    ensures
        row_by_row_made(
            input_domain,
            input_metric,
            output_domain,
            |
                row: <DI::RowDomain as Domain>::Carrier,
                res: Fallible<<DO::RowDomain as Domain>::Carrier>,
            |
                call_ensures(row_function, (&row,), res),
            out,
        ),
{
    let failing = Failing::new(row_function);
    assert(outcomes_of(failing) =~= (|
        row: <DI::RowDomain as Domain>::Carrier,
        res: Fallible<<DO::RowDomain as Domain>::Carrier>,
    | call_ensures(row_function, (&row,), res)));
    make_row_by_row_with(input_domain, input_metric, output_domain, failing)
}

/// The identity, as a callable: the result is a copy of the argument.
pub struct Identity {}

impl<T: Clone> Callable<T, T> for Identity {
    open spec fn outcome(&self, arg: T, out: Fallible<T>) -> bool {
        out matches Ok(copy) && cloned(arg, copy)
    }

    fn call(&self, arg: &T) -> (out: Fallible<T>) {
        Ok(arg.clone())
    }
}

/// The transformation that gives back its input. Datasets come out as
/// far apart as they went in.
///
/// Fails with `MakeTransformation` where the metric is not defined on the
/// domain.
pub fn make_identity<D, M>(domain: D, metric: M) -> (out: Fallible<Transformation<D, D, M, M>>) where
    D: MetricSpace<M>,
    M: Metric,
    D::Carrier: Clone + 'static,
    M::Distance: One + InfCast<M::Distance> + InfMul + Copy + 'static,

    ensures
        match out {
            Ok(identity) => {
                &&& identity.wf()
                &&& identity.input_domain == domain
                &&& identity.output_domain == domain
                &&& identity.input_metric == metric
                &&& identity.output_metric == metric
                &&& forall|arg: D::Carrier, res: Fallible<D::Carrier>| #[trigger]
                    identity.function.outcome(arg, res) <==> (res matches Ok(copy) && cloned(
                        arg,
                        copy,
                    ))
                &&& forall|d_in: M::Distance, d_out: Fallible<M::Distance>| #[trigger]
                    identity.stability_map.outcome(d_in, d_out) <==> constant_outcome(
                        M::Distance::one_spec(),
                        d_in,
                        d_out,
                    )
            },
            Err(e) => e.variant == ErrorVariant::MakeTransformation && !domain.admits(&metric),
        },
{
    let callable = Identity {  };
    let boxed: Box<dyn Callable<D::Carrier, D::Carrier>> = Box::new(callable);
    assert(forall|arg: D::Carrier, res: Fallible<D::Carrier>| #[trigger]
        boxed.outcome(arg, res) <==> callable.outcome(arg, res));
    let shared = Rc::new(boxed);
    assert(forall|arg: D::Carrier, res: Fallible<D::Carrier>| #[trigger]
        shared.outcome(arg, res) <==> callable.outcome(arg, res));
    let output_domain = domain.duplicate();
    let output_metric = metric.duplicate();
    Transformation::new(
        domain,
        output_domain,
        Function { function: shared },
        metric,
        output_metric,
        StabilityMap::new_from_constant(M::Distance::one()),
    )
}

/// Whether a value is null, as a callable.
pub struct IsNull {}

impl<T: CheckNull> Callable<T, bool> for IsNull {
    open spec fn outcome(&self, arg: T, out: Fallible<bool>) -> bool {
        out == Ok::<bool, Error>(arg.null())
    }

    fn call(&self, arg: &T) -> (out: Fallible<bool>) {
        Ok(arg.is_null())
    }
}

/// The transformation that tells of each item of a vector whether it is
/// null.
pub fn make_is_null<DIA>(input_atom_domain: DIA) -> (out: Fallible<
    Transformation<
        VectorDomain<DIA>,
        VectorDomain<AllDomain<bool>>,
        SymmetricDistance,
        SymmetricDistance,
    >,
>) where DIA: Domain + 'static, DIA::Carrier: CheckNull + 'static
    ensures
        out matches Ok(is_null) && {
            &&& is_null.input_domain == (VectorDomain { element_domain: input_atom_domain, size: None })
            &&& is_null.output_domain.size is None
            &&& forall|arg: Vec<DIA::Carrier>, res: Fallible<Vec<bool>>| #[trigger]
                is_null.function.outcome(arg, res) <==> (res matches Ok(flags) && flags@.len()
                    == arg@.len() && forall|i: int|
                    0 <= i < arg@.len() ==> flags@[i] == (#[trigger] arg@[i]).null())
            &&& forall|d_in: IntDistance, d_out: Fallible<IntDistance>| #[trigger]
                is_null.stability_map.outcome(d_in, d_out) <==> constant_outcome(1u32, d_in, d_out)
        },
{
    let made = make_row_by_row_with(
        VectorDomain::new(input_atom_domain, None),
        SymmetricDistance::default(),
        VectorDomain::new(AllDomain::new(), None),
        IsNull {  },
    );
    proof {
        let row_outcome = outcomes_of::<DIA::Carrier, bool, IsNull>(IsNull {  });
        assert forall|arg: Vec<DIA::Carrier>, res: Fallible<Vec<bool>>|
            vector_rows_outcome(arg@, row_outcome, res) <==> (res matches Ok(flags) && flags@.len()
                == arg@.len() && forall|i: int|
                0 <= i < arg@.len() ==> flags@[i] == (#[trigger] arg@[i]).null()) by {
            if let Ok(flags) = res {
                if vector_rows_outcome(arg@, row_outcome, res) {
                    assert forall|i: int| 0 <= i < arg@.len() implies flags@[i] == (
                    #[trigger] arg@[i]).null() by {
                        assert(row_outcome(arg@[i], Ok(flags@[i])));
                    }
                }
                if flags@.len() == arg@.len() && forall|i: int|
                    0 <= i < arg@.len() ==> flags@[i] == (#[trigger] arg@[i]).null() {
                    assert forall|i: int| 0 <= i < flags@.len() implies #[trigger] row_outcome(
                        arg@[i],
                        Ok(flags@[i]),
                    ) by {
                        assert(flags@[i] == arg@[i].null());
                    }
                }
            } else {
                let e = res->Err_0;
                if vector_rows_outcome(arg@, row_outcome, res) {
                    let results = choose|results: Seq<bool>| #[trigger]
                        rows_succeed(arg@, row_outcome, results) && results.len() < arg@.len()
                            && row_outcome(arg@[results.len() as int], Err(e));
                    assert(row_outcome(arg@[results.len() as int], Err(e)));
                }
            }
        }
    }
    made
}

} // verus!
