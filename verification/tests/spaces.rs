use opendp::combinators::measure_cast::make_pureDP_to_fixed_approxDP;
use opendp::domains::{AllDomain, AtomDomain, VectorDomain};
use opendp::error::{Error, ErrorVariant};
use opendp::function::Function;
use opendp::maps::{PrivacyMap, StabilityMap};
use opendp::measurement::Measurement;
use opendp::measures::{
    sum_up, BasicCompositionMeasure, FixedSmoothedMaxDivergence, MaxDivergence,
};
use opendp::metrics::{
    AbsoluteDistance, ChangeOneDistance, DatasetMetric, DiscreteDistance, HammingDistance,
    InfDifferenceDistance, InsertDeleteDistance, SymmetricDistance,
};
use opendp::spaces::{Component, Domain, MetricSpace};
use opendp::transformation::Transformation;

#[test]
fn atom_domain_holds_what_lies_between_its_bounds() {
    let all = AtomDomain::<i32>::default();
    assert!(all.member(&i32::MIN).unwrap());
    let bounded = AtomDomain::new_closed((-1, 10)).unwrap();
    assert!(bounded.member(&-1).unwrap());
    assert!(bounded.member(&10).unwrap());
    assert!(bounded.member(&3).unwrap());
    assert!(!bounded.member(&-2).unwrap());
    assert!(!bounded.member(&11).unwrap());
    assert!(AtomDomain::new_closed((3, 3)).is_ok());
    let error = AtomDomain::new_closed((4, 3)).err().unwrap();
    assert_eq!(error.variant, ErrorVariant::MakeDomain);
    assert!(AllDomain::<String>::new().member(&"any".to_string()).unwrap());
}

#[test]
fn vector_domain_asks_every_item_and_the_length() {
    let bounded = AtomDomain::new_closed((0, 10)).unwrap();
    let any_length = VectorDomain::new(bounded.clone(), None);
    assert!(any_length.member(&vec![]).unwrap());
    assert!(any_length.member(&vec![0, 5, 10]).unwrap());
    assert!(!any_length.member(&vec![0, 11, 10]).unwrap());
    let three = VectorDomain::new(bounded, Some(3));
    assert!(three.member(&vec![0, 5, 10]).unwrap());
    assert!(!three.member(&vec![0, 5]).unwrap());
    assert!(!three.member(&vec![0, 5, 11]).unwrap());
}

#[test]
fn components_are_told_apart_by_their_parameters() {
    let bounded = AtomDomain::new_closed((0, 10)).unwrap();
    assert!(bounded.matches(&AtomDomain::new_closed((0, 10)).unwrap()));
    assert!(!bounded.matches(&AtomDomain::new_closed((0, 11)).unwrap()));
    assert!(!bounded.matches(&AtomDomain::default()));
    assert!(bounded.duplicate().matches(&bounded));
    let nullable = AtomDomain::<i32> { bounds: None, nullable: true };
    assert!(!nullable.matches(&AtomDomain::default()));
    assert!(VectorDomain::new(bounded.clone(), Some(2)).matches(&VectorDomain::new(bounded.clone(), Some(2))));
    assert!(!VectorDomain::new(bounded.clone(), Some(2)).matches(&VectorDomain::new(bounded.clone(), Some(3))));
    assert!(!VectorDomain::new(bounded.clone(), Some(2)).matches(&VectorDomain::new(bounded.clone(), None)));
    assert!(SymmetricDistance::default().matches(&SymmetricDistance::default()));
}

#[test]
fn components_describe_themselves() {
    assert_eq!(AllDomain::<u8>::new().describe(), "AllDomain()");
    assert_eq!(AtomDomain::<u8>::default().describe(), "AtomDomain(unbounded)");
    assert_eq!(AtomDomain::new_closed((1, 2)).unwrap().describe(), "AtomDomain(bounded)");
    let nullable = AtomDomain::<i32> { bounds: None, nullable: true };
    assert_eq!(nullable.describe(), "AtomDomain(unbounded, nullable)");
    assert_eq!(
        VectorDomain::new(AtomDomain::<u8>::default(), Some(1)).describe(),
        "VectorDomain(AtomDomain(unbounded), sized)"
    );
    assert_eq!(AbsoluteDistance::<i32>::default().describe(), "AbsoluteDistance()");
    assert_eq!(SymmetricDistance::default().describe(), "SymmetricDistance()");
    assert_eq!(DiscreteDistance::default().describe(), "DiscreteDistance()");
    assert_eq!(InfDifferenceDistance::<i32>::default().describe(), "InfDifferenceDistance()");
    assert_eq!(MaxDivergence::<i32>::default().describe(), "MaxDivergence()");
    assert_eq!(
        FixedSmoothedMaxDivergence::<i32>::default().describe(),
        "FixedSmoothedMaxDivergence()"
    );
}

#[test]
fn a_metric_must_be_defined_on_its_domain() {
    let nullable = AtomDomain::<i32> { bounds: None, nullable: true };
    assert!(!nullable.check_space(&AbsoluteDistance::<i32>::default()));
    assert!(AtomDomain::<i32>::default().check_space(&AbsoluteDistance::<i32>::default()));

    let transformation = Transformation::new(
        nullable.clone(),
        AtomDomain::<i32>::default(),
        Function::new(|a: &i32| *a),
        AbsoluteDistance::<i32>::default(),
        AbsoluteDistance::<i32>::default(),
        StabilityMap::new_from_constant(1),
    );
    assert_eq!(transformation.err().unwrap().variant, ErrorVariant::MakeTransformation);
    let transformation = Transformation::new(
        AtomDomain::<i32>::default(),
        nullable.clone(),
        Function::new(|a: &i32| *a),
        AbsoluteDistance::<i32>::default(),
        AbsoluteDistance::<i32>::default(),
        StabilityMap::new_from_constant(1),
    );
    assert_eq!(transformation.err().unwrap().variant, ErrorVariant::MakeTransformation);
    let measurement = Measurement::new(
        nullable,
        Function::new(|a: &i32| *a),
        AbsoluteDistance::<i32>::default(),
        MaxDivergence::<i32>::default(),
        PrivacyMap::new_from_constant(1),
    );
    assert_eq!(measurement.err().unwrap().variant, ErrorVariant::MakeMeasurement);
}

#[test]
fn a_constant_map_multiplies_and_never_gives_less_on_more() {
    let map = StabilityMap::<AbsoluteDistance<u32>, AbsoluteDistance<i32>>::new_from_constant(3);
    assert_eq!(map.eval(&0).unwrap(), 0);
    assert_eq!(map.eval(&7).unwrap(), 21);
    assert_eq!(map.eval(&715827882).unwrap(), 2147483646);
    assert_eq!(map.eval(&715827883).unwrap(), i32::MAX);
    assert_eq!(map.eval(&(i32::MAX as u32)).unwrap(), i32::MAX);
    assert_eq!(map.eval(&u32::MAX).err().unwrap().variant, ErrorVariant::FailedCast);
    let mut last = 0;
    for d_in in [0u32, 1, 2, 10, 1000, 715827882, 715827883, 2000000000] {
        let bound = map.eval(&d_in).unwrap();
        assert!(last <= bound);
        last = bound;
    }
}

#[test]
fn maps_chain_and_pass_failures_on() {
    let inner = StabilityMap::<AbsoluteDistance<u32>, AbsoluteDistance<u32>>::new_from_constant(2);
    let outer = PrivacyMap::<AbsoluteDistance<u32>, MaxDivergence<u32>>::new_fallible(|d: &u32| {
        if *d > 10 {
            Err(Error::new(ErrorVariant::FailedMap, "too far"))
        } else {
            Ok(*d + 1)
        }
    });
    let chain = PrivacyMap::make_chain(&outer, &inner);
    assert_eq!(chain.eval(&5).unwrap(), 11);
    assert_eq!(chain.eval(&6).err().unwrap().variant, ErrorVariant::FailedMap);
    let forward =
        StabilityMap::<AbsoluteDistance<u32>, AbsoluteDistance<u32>>::new_from_forward(|d: &u32| {
            Ok(*d / 2)
        });
    assert_eq!(StabilityMap::make_chain(&inner, &forward).eval(&9).unwrap(), 8);
}

#[test]
fn losses_add_up_under_each_measure() {
    assert_eq!(MaxDivergence::<u32>::default().compose(vec![1, 1, 3, 5]).unwrap(), 10);
    assert_eq!(MaxDivergence::<u32>::default().compose(vec![]).unwrap(), 0);
    assert_eq!(MaxDivergence::<u8>::default().compose(vec![200, 100]).unwrap(), 255);
    assert_eq!(
        FixedSmoothedMaxDivergence::<u32>::default().compose(vec![(1, 10), (2, 20)]).unwrap(),
        (3, 30)
    );
    assert_eq!(sum_up(&vec![4i64, -6, 1]).unwrap(), -1);
}

#[test]
fn pure_privacy_is_approximate_privacy_with_delta_zero() {
    let pure = Measurement::new(
        AtomDomain::<i32>::default(),
        Function::new(|a: &i32| *a + 1),
        AbsoluteDistance::<i32>::default(),
        MaxDivergence::<i32>::default(),
        PrivacyMap::new_from_constant(3),
    )
    .unwrap();
    let approximate = make_pureDP_to_fixed_approxDP(pure).unwrap();
    assert_eq!(approximate.invoke(&1).unwrap(), 2);
    assert_eq!(approximate.map(&2).unwrap(), (6, 0));
    assert!(approximate.check(&2, &(6, 0)).unwrap());
    assert!(approximate.check(&2, &(7, 1)).unwrap());
    assert!(!approximate.check(&2, &(5, 0)).unwrap());
    assert_eq!(
        approximate.check(&2, &(5, 1)).err().unwrap().variant,
        ErrorVariant::FailedFunction
    );
}

#[test]
fn dataset_metrics_tell_whether_the_size_is_fixed() {
    assert!(!SymmetricDistance::BOUNDED);
    assert!(!InsertDeleteDistance::BOUNDED);
    assert!(ChangeOneDistance::BOUNDED);
    assert!(HammingDistance::BOUNDED);

    let sized = VectorDomain::new(AtomDomain::<i32>::default(), Some(3));
    let unsized_ = VectorDomain::new(AtomDomain::<i32>::default(), None);
    assert!(sized.check_space(&ChangeOneDistance::default()));
    assert!(!unsized_.check_space(&ChangeOneDistance::default()));
    assert!(sized.check_space(&HammingDistance::default()));
    assert!(!unsized_.check_space(&HammingDistance::default()));
    assert!(unsized_.check_space(&InsertDeleteDistance::default()));
    assert!(unsized_.check_space(&SymmetricDistance::default()));
    assert_eq!(ChangeOneDistance::default().describe(), "ChangeOneDistance()");
    assert_eq!(HammingDistance::default().describe(), "HammingDistance()");
    assert_eq!(InsertDeleteDistance::default().describe(), "InsertDeleteDistance()");
}
