use opendp::combinators::odometer::{
    eval_invoke, eval_map, make_chain_ot, make_chain_po, OdometerAnswer, OdometerQuery,
};
use opendp::combinators::sequential_odometer::{make_sequential_odometer, SequentialOdometer};
use opendp::domains::{AtomDomain, VectorDomain};
use opendp::error::{Error, ErrorVariant};
use opendp::function::Function;
use opendp::interactive::{Answer, ChildChange, InternalQuery, Query, Queryable};
use opendp::maps::{PrivacyMap, StabilityMap};
use opendp::measurement::Measurement;
use opendp::measures::MaxDivergence;
use opendp::metrics::SymmetricDistance;
use opendp::transformation::Transformation;

type Rows = VectorDomain<AtomDomain<i32>>;

type Count = Measurement<Rows, usize, SymmetricDistance, MaxDivergence<u32>>;

type Counter = SequentialOdometer<Rows, usize, SymmetricDistance, MaxDivergence<u32>>;

/// A measurement that releases the number of rows, at `factor` times the
/// distance.
fn count(factor: u32) -> Count {
    Measurement::new(
        VectorDomain::new(AtomDomain::default(), None),
        Function::new(|rows: &Vec<i32>| rows.len()),
        SymmetricDistance::default(),
        MaxDivergence::default(),
        PrivacyMap::new_from_constant(factor),
    )
    .unwrap()
}

/// A transformation that keeps every row twice.
fn twice() -> Transformation<Rows, Rows, SymmetricDistance, SymmetricDistance> {
    Transformation::new(
        VectorDomain::new(AtomDomain::default(), None),
        VectorDomain::new(AtomDomain::default(), None),
        Function::new(|rows: &Vec<i32>| {
            let mut doubled = rows.clone();
            doubled.extend(rows.iter().cloned());
            doubled
        }),
        SymmetricDistance::default(),
        SymmetricDistance::default(),
        StabilityMap::new_from_constant(2),
    )
    .unwrap()
}

#[test]
fn odometer_adds_up_what_was_run() {
    let odometer = make_sequential_odometer::<Rows, usize, _, _>(
        VectorDomain::new(AtomDomain::default(), None),
        SymmetricDistance::default(),
        MaxDivergence::<u32>::default(),
    )
    .unwrap();
    let mut queryable: Counter = odometer.invoke(&vec![1, 2, 3]).unwrap();
    assert_eq!(eval_map(&mut queryable, 1).unwrap(), 0);

    assert_eq!(eval_invoke(&mut queryable, count(2)).unwrap(), 3);
    assert_eq!(eval_map(&mut queryable, 1).unwrap(), 2);
    assert_eq!(eval_invoke(&mut queryable, count(5)).unwrap(), 3);
    assert_eq!(eval_map(&mut queryable, 1).unwrap(), 7);
    assert_eq!(eval_map(&mut queryable, 3).unwrap(), 21);
    // asking for the loss costs nothing
    assert_eq!(eval_map(&mut queryable, 3).unwrap(), 21);
}

#[test]
fn odometer_counts_no_failed_run() {
    let odometer = make_sequential_odometer::<Rows, usize, _, _>(
        VectorDomain::new(AtomDomain::default(), None),
        SymmetricDistance::default(),
        MaxDivergence::<u32>::default(),
    )
    .unwrap();
    let mut queryable: Counter = odometer.invoke(&vec![1]).unwrap();
    let broken: Count = Measurement::new(
        VectorDomain::new(AtomDomain::default(), None),
        Function::new_fallible(|_rows: &Vec<i32>| {
            Err(Error::new(ErrorVariant::FailedFunction, "broken"))
        }),
        SymmetricDistance::default(),
        MaxDivergence::default(),
        PrivacyMap::new_from_constant(9),
    )
    .unwrap();
    assert!(eval_invoke(&mut queryable, broken).is_err());
    assert_eq!(eval_map(&mut queryable, 1).unwrap(), 0);

    let message = InternalQuery::ChildChange(ChildChange { id: 0 });
    let error = queryable.eval_internal(&message).err().unwrap();
    assert_eq!(error.variant, ErrorVariant::FailedFunction);
}

#[test]
fn odometer_behind_a_transformation_asks_for_the_mapped_distance() {
    let odometer = make_sequential_odometer::<Rows, usize, _, _>(
        VectorDomain::new(AtomDomain::default(), None),
        SymmetricDistance::default(),
        MaxDivergence::<u32>::default(),
    )
    .unwrap();
    let chain = make_chain_ot(&odometer, &twice()).unwrap();
    let mut queryable = chain.invoke(&vec![1, 2, 3]).unwrap();

    // the measurement sees the transformed data
    assert_eq!(eval_invoke(&mut queryable, count(5)).unwrap(), 6);
    // inputs one apart are two apart behind the transformation
    assert_eq!(eval_map(&mut queryable, 1).unwrap(), 10);

    let message = InternalQuery::Other("hello".to_string());
    let error = queryable.eval_query(Query::Internal(&message)).err().unwrap();
    assert_eq!(error.variant, ErrorVariant::FailedFunction);
}

#[test]
fn odometer_behind_a_transformation_rejects_unlike_domains() {
    let odometer = make_sequential_odometer::<Rows, usize, _, _>(
        VectorDomain::new(AtomDomain::default(), Some(3)),
        SymmetricDistance::default(),
        MaxDivergence::<u32>::default(),
    )
    .unwrap();
    let error = make_chain_ot(&odometer, &twice()).err().unwrap();
    assert_eq!(error.variant, ErrorVariant::DomainMismatch);
}

#[test]
fn postprocessed_odometer_works_on_releases_only() {
    let odometer = make_sequential_odometer::<Rows, usize, _, _>(
        VectorDomain::new(AtomDomain::default(), None),
        SymmetricDistance::default(),
        MaxDivergence::<u32>::default(),
    )
    .unwrap();
    let describe: Function<usize, String> = Function::new(|n: &usize| format!("{} rows", n));
    let chain = make_chain_po(&describe, &odometer).unwrap();
    let mut queryable = chain.invoke(&vec![1, 2, 3]).unwrap();

    assert_eq!(eval_invoke(&mut queryable, count(4)).unwrap(), "3 rows");
    assert_eq!(eval_map(&mut queryable, 2).unwrap(), 8);

    let asked = OdometerQuery::Invoke(count(1));
    match queryable.eval_query(Query::External(&asked)).unwrap() {
        Answer::External(OdometerAnswer::Invoke(text)) => assert_eq!(text, "3 rows"),
        _ => panic!("expected a release"),
    }
    assert_eq!(eval_map(&mut queryable, 1).unwrap(), 5);
}

#[test]
fn postprocessing_failure_is_the_answer() {
    let odometer = make_sequential_odometer::<Rows, usize, _, _>(
        VectorDomain::new(AtomDomain::default(), None),
        SymmetricDistance::default(),
        MaxDivergence::<u32>::default(),
    )
    .unwrap();
    let refuse: Function<usize, usize> = Function::new_fallible(|_n: &usize| {
        Err(Error::new(ErrorVariant::FailedCast, "refused"))
    });
    let chain = make_chain_po(&refuse, &odometer).unwrap();
    let mut queryable = chain.invoke(&vec![1]).unwrap();
    let error = eval_invoke(&mut queryable, count(4)).err().unwrap();
    assert_eq!(error.variant, ErrorVariant::FailedCast);
    // the measurement did run
    assert_eq!(eval_map(&mut queryable, 1).unwrap(), 4);
}
