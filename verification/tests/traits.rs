use opendp::error::ErrorVariant;
use opendp::traits::arithmetic::{
    AlertingAbs, AlertingMul, ExactIntCast, InfAdd, InfCast, InfDiv, InfMul, InfSub, One, Zero,
};
use opendp::samplers::fill_bytes;
use opendp::traits::checks::{CheckNull, CollectionSize, InherentNull};
use opendp::traits::float_bits::FloatBits;
use opendp::traits::ordering::{Comparison, TotalOrd};
use std::collections::HashMap;

#[test]
fn integers_are_totally_ordered() {
    assert_eq!(1i32.total_cmp(&2).unwrap(), Comparison::Less);
    assert_eq!(2i32.total_cmp(&2).unwrap(), Comparison::Equal);
    assert_eq!(3u64.total_cmp(&2).unwrap(), Comparison::Greater);
    assert_eq!(1i32.total_max(2).unwrap(), 2);
    assert_eq!(1i32.total_min(2).unwrap(), 1);
    assert!(1u8.total_lt(&2).unwrap());
    assert!(!2u8.total_lt(&2).unwrap());
    assert!(2u8.total_le(&2).unwrap());
    assert!(!3u8.total_le(&2).unwrap());
    assert!(3i64.total_gt(&2).unwrap());
    assert!(!2i64.total_gt(&2).unwrap());
    assert!(2u32.total_ge(&2).unwrap());
    assert!(!1u32.total_ge(&2).unwrap());
}

#[test]
fn clamp_brings_into_range() {
    assert_eq!((-1i32).total_clamp(0, 10).unwrap(), 0);
    assert_eq!(5i32.total_clamp(0, 10).unwrap(), 5);
    assert_eq!(11i32.total_clamp(0, 10).unwrap(), 10);
    assert_eq!(0i32.total_clamp(0, 10).unwrap(), 0);
    assert_eq!(10i32.total_clamp(0, 10).unwrap(), 10);
    let error = 5i32.total_clamp(10, 0).err().unwrap();
    assert_eq!(error.variant, ErrorVariant::FailedFunction);
    assert_eq!(error.message.unwrap(), "min cannot be greater than max");
}

#[test]
fn pairs_are_ordered_where_no_part_goes_the_other_way() {
    assert_eq!((1, 1).total_cmp(&(2, 2)).unwrap(), Comparison::Less);
    assert_eq!((1, 2).total_cmp(&(2, 2)).unwrap(), Comparison::Less);
    assert_eq!((2, 1).total_cmp(&(2, 2)).unwrap(), Comparison::Less);
    assert_eq!((2, 2).total_cmp(&(2, 2)).unwrap(), Comparison::Equal);
    assert_eq!((2, 3).total_cmp(&(2, 2)).unwrap(), Comparison::Greater);
    assert_eq!((3, 2).total_cmp(&(2, 2)).unwrap(), Comparison::Greater);
    assert_eq!((3, 3).total_cmp(&(2, 2)).unwrap(), Comparison::Greater);
    let error = (1, 3).total_cmp(&(2, 2)).err().unwrap();
    assert_eq!(error.variant, ErrorVariant::FailedFunction);
    assert_eq!(error.message.unwrap(), "arguments are not totally ordered");
    assert!((3, 1).total_cmp(&(2, 2)).is_err());
    assert!((1u32, 0u32).total_ge(&(1, 0)).unwrap());
}

#[test]
fn arithmetic_stays_at_the_ends() {
    assert_eq!(2i32.inf_add(&3).unwrap(), 5);
    assert_eq!(i32::MAX.inf_add(&1).unwrap(), i32::MAX);
    assert_eq!(i32::MIN.inf_add(&-1).unwrap(), i32::MIN);
    assert_eq!(u8::MAX.inf_add(&1).unwrap(), u8::MAX);
    assert_eq!(u64::MAX.inf_add(&u64::MAX).unwrap(), u64::MAX);
    assert_eq!(2u32.inf_sub(&3).unwrap(), 0);
    assert_eq!(7u32.inf_sub(&3).unwrap(), 4);
    assert_eq!(i64::MIN.inf_sub(&1).unwrap(), i64::MIN);
    assert_eq!(i64::MAX.inf_sub(&-1).unwrap(), i64::MAX);
    assert_eq!(6i32.inf_mul(&7).unwrap(), 42);
    assert_eq!(i32::MAX.inf_mul(&2).unwrap(), i32::MAX);
    assert_eq!(i32::MAX.inf_mul(&-2).unwrap(), i32::MIN);
    assert_eq!(i64::MIN.inf_mul(&i64::MIN).unwrap(), i64::MAX);
    assert_eq!(u64::MAX.inf_mul(&u64::MAX).unwrap(), u64::MAX);
    assert_eq!(u32::MAX.inf_mul(&0).unwrap(), 0);
    assert_eq!(i32::zero(), 0);
    assert_eq!(u64::one(), 1);
}

#[test]
fn division_rounds_up() {
    assert_eq!(7u32.inf_div(&2).unwrap(), 4);
    assert_eq!(8u32.inf_div(&2).unwrap(), 4);
    assert_eq!(0u32.inf_div(&5).unwrap(), 0);
    assert_eq!(1u64.inf_div(&u64::MAX).unwrap(), 1);
    assert_eq!(7i32.inf_div(&2).unwrap(), 4);
    assert_eq!(7u32.inf_div(&0).err().unwrap().variant, ErrorVariant::FailedFunction);
    assert_eq!((-7i32).inf_div(&2).err().unwrap().variant, ErrorVariant::FailedFunction);
    assert_eq!(7i64.inf_div(&-2).err().unwrap().variant, ErrorVariant::FailedFunction);
}

#[test]
fn exact_operations_fail_where_the_result_does_not_fit() {
    assert_eq!((-5i32).alerting_abs().unwrap(), 5);
    assert_eq!(5i32.alerting_abs().unwrap(), 5);
    assert_eq!(5u32.alerting_abs().unwrap(), 5);
    assert_eq!(i32::MIN.alerting_abs().err().unwrap().variant, ErrorVariant::FailedFunction);
    assert_eq!(6i64.alerting_mul(&-7).unwrap(), -42);
    assert_eq!(i64::MAX.alerting_mul(&2).err().unwrap().variant, ErrorVariant::FailedFunction);
    assert_eq!(16u8.alerting_mul(&16).err().unwrap().variant, ErrorVariant::FailedFunction);
    assert_eq!(15u8.alerting_mul(&17).unwrap(), 255);
}

#[test]
fn casts_keep_the_value_or_fail() {
    let small: i32 = InfCast::<u32>::inf_cast(7).unwrap();
    assert_eq!(small, 7);
    let large: Result<i32, _> = InfCast::<u32>::inf_cast(u32::MAX);
    assert_eq!(large.err().unwrap().variant, ErrorVariant::FailedCast);
    let negative: Result<u64, _> = InfCast::<i32>::inf_cast(-1);
    assert_eq!(negative.err().unwrap().variant, ErrorVariant::FailedCast);
    let wide: i64 = InfCast::<u32>::inf_cast(u32::MAX).unwrap();
    assert_eq!(wide, 4294967295);
    let same: u8 = InfCast::<u8>::inf_cast(200).unwrap();
    assert_eq!(same, 200);
    let count: i32 = ExactIntCast::<usize>::exact_int_cast(5).unwrap();
    assert_eq!(count, 5);
    let too_many: Result<u8, _> = ExactIntCast::<usize>::exact_int_cast(256);
    assert_eq!(too_many.err().unwrap().variant, ErrorVariant::FailedCast);
}

#[test]
fn null_is_told_apart() {
    assert!(!1i32.is_null());
    assert!(!true.is_null());
    assert!(!"text".to_string().is_null());
    assert!(!'c'.is_null());
    assert!(!Some(1u8).is_null());
    assert!(None::<u8>.is_null());
    assert!(<Option<i64> as InherentNull>::NULL.is_null());
}

#[test]
fn collections_tell_their_size() {
    assert_eq!(vec![1, 2, 3].size(), 3);
    assert_eq!(Vec::<u8>::new().size(), 0);
    let mut map: HashMap<u32, bool> = HashMap::new();
    map.insert(1, true);
    map.insert(2, false);
    map.insert(1, false);
    assert_eq!(map.size(), 2);
}

#[test]
fn roundtrip_sign_exponent_mantissa() {
    for _ in 0..1000 {
        let mut bytes = [0u8; 8];
        fill_bytes(&mut bytes).unwrap();
        let unif = ((u64::from_ne_bytes(bytes) >> 11) as f64) / (1u64 << 53) as f64;
        println!("{:?}", unif);
        let (sign, raw_exponent, mantissa) = unif.to_bits().to_raw_components();
        let reconst = f64::from_bits(u64::from_raw_components(sign, raw_exponent, mantissa));
        assert_eq!(unif, reconst);
    }
}

#[test]
fn the_parts_of_known_numbers() {
    assert_eq!(1.0f64.to_bits().to_raw_components(), (false, 1023, 0));
    assert_eq!((-2.5f64).to_bits().to_raw_components(), (true, 1024, 1 << 50));
    assert_eq!(0.0f64.to_bits().to_raw_components(), (false, 0, 0));
    assert_eq!(f64::INFINITY.to_bits().to_raw_components(), (false, 2047, 0));
    assert_eq!(1.0f32.to_bits().to_raw_components(), (false, 127, 0));
    assert_eq!((-0.75f32).to_bits().to_raw_components(), (true, 126, 1 << 22));
    assert_eq!(f64::from_bits(u64::from_raw_components(true, 1024, 1 << 50)), -2.5);
    assert_eq!(f32::from_bits(u32::from_raw_components(false, 128, 0)), 2.0);
    assert!((-1.0f64).to_bits().sign());
    assert!(!1.0f32.to_bits().sign());
    assert_eq!(3.0f64.to_bits().raw_exponent(), 1024);
    assert_eq!(3.0f64.to_bits().mantissa(), 1 << 51);
    assert_eq!(u64::exponent_bits(), 11);
    assert_eq!(u64::mantissa_bits(), 52);
    assert_eq!(u64::exponent_bias(), 1023);
    assert_eq!(u32::exponent_bits(), 8);
    assert_eq!(u32::mantissa_bits(), 23);
    assert_eq!(u32::exponent_bias(), 127);
}
