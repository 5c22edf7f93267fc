use opendp::domains::{AtomDomain, VectorDomain};
use opendp::error::{Error, ErrorVariant, Fallible};
use opendp::metrics::SymmetricDistance;
use opendp::transformations::is_equal::make_is_equal;
use opendp::transformations::manipulation::{
    make_identity, make_is_null, make_row_by_row, make_row_by_row_fallible,
};

#[test]
fn test_identity() {
    let identity = make_identity(
        VectorDomain::new(AtomDomain::default(), None),
        SymmetricDistance::default(),
    )
    .unwrap();
    let arg = vec![99];
    let ret = identity.invoke(&arg).unwrap();
    assert_eq!(ret, arg);
}

#[test]
fn test_is_equal() -> Fallible<()> {
    let is_equal = make_is_equal("alpha".to_string())?;
    let arg = vec!["alpha".to_string(), "beta".to_string(), "gamma".to_string()];
    let ret = is_equal.invoke(&arg)?;

    assert_eq!(ret, vec![true, false, false]);
    assert!(is_equal.check(&1, &1)?);
    Ok(())
}

#[test]
fn identity_keeps_distances() {
    let identity = make_identity(
        VectorDomain::new(AtomDomain::<i32>::default(), None),
        SymmetricDistance::default(),
    )
    .unwrap();
    assert_eq!(identity.map(&5).unwrap(), 5);
    assert!(identity.check(&5, &5).unwrap());
    assert!(!identity.check(&5, &4).unwrap());
}

#[test]
fn is_null_flags_the_missing() {
    let is_null = make_is_null(opendp::domains::AllDomain::<Option<i32>>::new()).unwrap();
    let ret = is_null.invoke(&vec![Some(1), None, Some(3)]).unwrap();
    assert_eq!(ret, vec![false, true, false]);
    assert_eq!(is_null.map(&3).unwrap(), 3);
}

#[test]
fn row_by_row_applies_to_every_row() {
    let doubled = make_row_by_row(
        VectorDomain::new(AtomDomain::<i32>::default(), None),
        SymmetricDistance::default(),
        VectorDomain::new(AtomDomain::<i64>::default(), None),
        |row: &i32| *row as i64 * 2,
    )
    .unwrap();
    assert_eq!(doubled.invoke(&vec![1, 2, 3]).unwrap(), vec![2i64, 4, 6]);
    assert_eq!(doubled.invoke(&vec![]).unwrap(), Vec::<i64>::new());
    assert_eq!(doubled.map(&4).unwrap(), 4);
}

#[test]
fn row_by_row_stops_at_the_first_failure() {
    let checked = make_row_by_row_fallible(
        VectorDomain::new(AtomDomain::<i32>::default(), None),
        SymmetricDistance::default(),
        VectorDomain::new(AtomDomain::<i32>::default(), None),
        |row: &i32| {
            if *row < 0 {
                Err(Error::new(ErrorVariant::FailedFunction, &format!("negative: {}", row)))
            } else {
                Ok(*row + 1)
            }
        },
    )
    .unwrap();
    assert_eq!(checked.invoke(&vec![1, 2]).unwrap(), vec![2, 3]);
    let error = checked.invoke(&vec![1, -2, -3]).err().unwrap();
    assert_eq!(error.message.unwrap(), "negative: -2");
}
