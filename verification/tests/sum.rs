use opendp::error::ErrorVariant;
use opendp::transformations::sum::{double, make_bounded_sum, make_sized_bounded_sum};

#[test]
fn test_double() {
    let arg = vec![1, 2, 3];
    let res = double(&arg);
    assert_eq!(res, vec![2, 4, 6]);
}

#[test]
fn test_make_bounded_sum_l1() {
    let transformation = make_bounded_sum::<i32>((0, 10)).unwrap();
    let arg = vec![1, 2, 3, 4, 5];
    let ret = transformation.invoke(&arg).unwrap();
    let expected = 15;
    assert_eq!(ret, expected);
}

#[test]
fn test_make_bounded_sum_l2() {
    let transformation = make_bounded_sum::<i32>((0, 10)).unwrap();
    let arg = vec![1, 2, 3, 4, 5];
    let ret = transformation.invoke(&arg).unwrap();
    let expected = 15;
    assert_eq!(ret, expected);
}

#[test]
fn test_make_bounded_sum_n() {
    let transformation = make_sized_bounded_sum::<i32>(5, (0, 10)).unwrap();
    let arg = vec![1, 2, 3, 4, 5];
    let ret = transformation.invoke(&arg).unwrap();
    let expected = 15;
    assert_eq!(ret, expected);
}

#[test]
fn bounded_sum_is_stable_by_the_greater_bound() {
    let transformation = make_bounded_sum::<i32>((-20, 10)).unwrap();
    assert_eq!(transformation.map(&3).unwrap(), 60);
    assert!(transformation.check(&3, &60).unwrap());
    assert!(!transformation.check(&3, &59).unwrap());
}

#[test]
fn sized_bounded_sum_is_stable_by_half_the_range() {
    let transformation = make_sized_bounded_sum::<i32>(5, (-2, 10)).unwrap();
    assert_eq!(transformation.map(&5).unwrap(), 24);
    assert_eq!(transformation.map(&1).unwrap(), 0);
}

#[test]
fn bounded_sum_rejects_crossed_bounds() {
    let error = make_bounded_sum::<i32>((10, 0)).err().unwrap();
    assert_eq!(error.variant, ErrorVariant::MakeDomain);
    let error = make_sized_bounded_sum::<i32>(5, (10, 0)).err().unwrap();
    assert_eq!(error.variant, ErrorVariant::MakeDomain);
}

#[test]
fn bounded_sum_rejects_a_bound_without_absolute_value() {
    let error = make_bounded_sum::<i32>((i32::MIN, 0)).err().unwrap();
    assert_eq!(error.variant, ErrorVariant::FailedFunction);
}

#[test]
fn sized_bounded_sum_rejects_overflow() {
    let error = make_sized_bounded_sum::<i32>(3, (i32::MIN, i32::MAX)).err().unwrap();
    assert_eq!(error.variant, ErrorVariant::MakeTransformation);
}

#[test]
fn sum_stays_at_the_top() {
    let transformation = make_bounded_sum::<i32>((0, i32::MAX)).unwrap();
    let ret = transformation.invoke(&vec![i32::MAX, 5]).unwrap();
    assert_eq!(ret, i32::MAX);
}
