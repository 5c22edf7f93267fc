use opendp::combinators::chain::{
    make_chain_mt, make_chain_pm, make_chain_tm, make_chain_tt, mismatch_error,
};
use opendp::domains::{AllDomain, AtomDomain, VectorDomain};
use opendp::error::{ErrorVariant, Fallible};
use opendp::function::Function;
use opendp::maps::{PrivacyMap, StabilityMap};
use opendp::measurement::Measurement;
use opendp::measures::MaxDivergence;
use opendp::metrics::{AbsoluteDistance, SymmetricDistance};
use opendp::transformation::Transformation;

#[test]
fn test_make_chain_mt() -> Fallible<()> {
    let input_domain0 = AtomDomain::<u8>::default();
    let output_domain0 = AtomDomain::<i32>::default();
    let function0 = Function::new(|a: &u8| (a + 1) as i32);
    let input_metric0 = AbsoluteDistance::<i32>::default();
    let output_metric0 = AbsoluteDistance::<i32>::default();
    let stability_map0 = StabilityMap::new_from_constant(1);

    let transformation0 = Transformation::new(
        input_domain0,
        output_domain0,
        function0,
        input_metric0,
        output_metric0,
        stability_map0,
    )?;
    let input_domain1 = AtomDomain::<i32>::default();
    let function1 = Function::new(|a: &i32| (a + 1) as f64);
    let input_metric1 = AbsoluteDistance::<i32>::default();
    let output_measure1 = MaxDivergence::default();
    let privacy_map1 = PrivacyMap::new(|d_in: &i32| *d_in as f64 + 1.);
    let measurement1 = Measurement::new(
        input_domain1,
        function1,
        input_metric1,
        output_measure1,
        privacy_map1,
    )?;
    let chain = make_chain_mt(&measurement1, &transformation0)?;

    let arg = 99_u8;
    let ret = chain.invoke(&arg).unwrap();
    assert_eq!(ret, 101.0);

    let d_in = 99_i32;
    let d_out = chain.map(&d_in).unwrap();
    assert_eq!(d_out, 100.);

    Ok(())
}

#[test]
fn mod_test_make_chain_tt() -> Fallible<()> {
    let input_domain0 = AtomDomain::<u8>::default();
    let output_domain0 = AtomDomain::<i32>::default();
    let function0 = Function::new(|a: &u8| (a + 1) as i32);
    let input_metric0 = AbsoluteDistance::<i32>::default();
    let output_metric0 = AbsoluteDistance::<i32>::default();
    let stability_map0 = StabilityMap::new_from_constant(1);
    let transformation0 = Transformation::new(
        input_domain0,
        output_domain0,
        function0,
        input_metric0,
        output_metric0,
        stability_map0,
    )?;
    let input_domain1 = AtomDomain::<i32>::default();
    let output_domain1 = AllDomain::<f64>::default();
    let function1 = Function::new(|a: &i32| (a + 1) as f64);
    let input_metric1 = AbsoluteDistance::<i32>::default();
    let output_metric1 = AbsoluteDistance::<i32>::default();
    let stability_map1 = StabilityMap::new_from_constant(1);
    let transformation1 = Transformation::new(
        input_domain1,
        output_domain1,
        function1,
        input_metric1,
        output_metric1,
        stability_map1,
    )?;
    let chain = make_chain_tt(&transformation1, &transformation0).unwrap();

    let arg = 99_u8;
    let ret = chain.invoke(&arg).unwrap();
    assert_eq!(ret, 101.0);

    let d_in = 99_i32;
    let d_out = chain.map(&d_in).unwrap();
    assert_eq!(d_out, 99);

    Ok(())
}

#[test]
fn test_make_chain_pm() -> Fallible<()> {
    let input_domain0 = AtomDomain::<u8>::default();
    let function0 = Function::new(|a: &u8| (a + 1) as i32);
    let input_metric0 = AbsoluteDistance::<i32>::default();
    let output_measure0 = MaxDivergence::<i32>::default();
    let privacy_map0 = PrivacyMap::new_from_constant(1);
    let measurement0 = Measurement::new(
        input_domain0,
        function0,
        input_metric0,
        output_measure0,
        privacy_map0,
    )?;
    let function1 = Function::new(|a: &i32| (a + 1) as f64);
    let chain = make_chain_pm(&function1, &measurement0)?;

    let arg = 99_u8;
    let ret = chain.invoke(&arg)?;
    assert_eq!(ret, 101.0);

    let d_in = 99_i32;
    let d_out = chain.map(&d_in)?;
    assert_eq!(d_out, 99);

    Ok(())
}

fn counting(size: Option<usize>) -> Transformation<
    VectorDomain<AtomDomain<i32>>,
    VectorDomain<AtomDomain<i32>>,
    SymmetricDistance,
    SymmetricDistance,
> {
    Transformation::new(
        VectorDomain::new(AtomDomain::default(), size),
        VectorDomain::new(AtomDomain::default(), size),
        Function::new(|rows: &Vec<i32>| rows.clone()),
        SymmetricDistance::default(),
        SymmetricDistance::default(),
        StabilityMap::new_from_constant(1),
    )
    .unwrap()
}

#[test]
fn chain_rejects_unlike_domains() {
    let inner = counting(Some(3));
    let outer = counting(Some(4));
    let error = make_chain_tt(&outer, &inner).err().unwrap();
    assert_eq!(error.variant, ErrorVariant::DomainMismatch);
    let message = error.message.unwrap();
    assert_eq!(
        message,
        "Intermediate domains don't match. See https://github.com/opendp/opendp/discussions/297\n    The structure of the intermediate domains are the same, but the parameters differ.\n    shared_domain: VectorDomain(AtomDomain(unbounded), sized)\n"
    );
}

#[test]
fn chain_rejects_unlike_shapes() {
    let inner = counting(None);
    let outer = counting(Some(4));
    let error = make_chain_tt(&outer, &inner).err().unwrap();
    assert_eq!(error.variant, ErrorVariant::DomainMismatch);
    assert_eq!(
        error.message.unwrap(),
        "Intermediate domains don't match. See https://github.com/opendp/opendp/discussions/297\n    output_domain: VectorDomain(AtomDomain(unbounded))\n    input_domain:  VectorDomain(AtomDomain(unbounded), sized)\n"
    );
}

#[test]
fn chain_accepts_like_domains() {
    let inner = counting(Some(3));
    let outer = counting(Some(3));
    let chain = make_chain_tt(&outer, &inner).unwrap();
    assert_eq!(chain.invoke(&vec![1, 2, 3]).unwrap(), vec![1, 2, 3]);
    assert_eq!(chain.map(&7).unwrap(), 7);
}

#[test]
fn mismatch_error_names_the_metric() {
    let error = mismatch_error(
        ErrorVariant::MetricMismatch,
        &SymmetricDistance::default(),
        &SymmetricDistance::default(),
    );
    assert_eq!(error.variant, ErrorVariant::MetricMismatch);
    assert_eq!(
        error.message.unwrap(),
        "Intermediate metrics don't match. See https://github.com/opendp/opendp/discussions/297\n    The structure of the intermediate metrics are the same, but the parameters differ.\n    shared_metric: SymmetricDistance()\n"
    );
}

#[test]
fn chain_stops_at_the_first_failure() {
    let failing: Function<u8, i32> = Function::new_fallible(|_a: &u8| {
        Err(opendp::error::Error::new(ErrorVariant::FailedFunction, "inner"))
    });
    let outer: Function<i32, i32> = Function::new_fallible(|_a: &i32| {
        Err(opendp::error::Error::new(ErrorVariant::FailedCast, "outer"))
    });
    let chain = Function::make_chain(&outer, &failing);
    let error = chain.eval(&1).err().unwrap();
    assert_eq!(error.variant, ErrorVariant::FailedFunction);
    assert_eq!(error.message.unwrap(), "inner");
}

#[test]
fn chained_measurement_maps_99_to_100() {
    let transformation = Transformation::new(
        AtomDomain::<i32>::default(),
        AtomDomain::<i32>::default(),
        Function::new(|a: &i32| *a),
        AbsoluteDistance::<i32>::default(),
        AbsoluteDistance::<i32>::default(),
        StabilityMap::new_from_constant(1),
    )
    .unwrap();
    let measurement = Measurement::new(
        AtomDomain::<i32>::default(),
        Function::new(|a: &i32| *a),
        AbsoluteDistance::<i32>::default(),
        MaxDivergence::<i32>::default(),
        PrivacyMap::new(|d_in: &i32| *d_in + 1),
    )
    .unwrap();
    let chain = make_chain_mt(&measurement, &transformation).unwrap();
    assert_eq!(chain.map(&99).unwrap(), 100);
    assert!(chain.check(&99, &100).unwrap());
    assert!(!chain.check(&99, &99).unwrap());
}

#[test]
fn a_transformation_after_a_measurement_costs_nothing() {
    let measurement = Measurement::new(
        AtomDomain::<i32>::default(),
        Function::new(|a: &i32| *a + 1),
        AbsoluteDistance::<i32>::default(),
        MaxDivergence::<i32>::default(),
        PrivacyMap::new_from_constant(3),
    )
    .unwrap();
    let transformation = Transformation::new(
        AtomDomain::<i32>::default(),
        AtomDomain::<i32>::default(),
        Function::new(|a: &i32| *a * 2),
        AbsoluteDistance::<i32>::default(),
        AbsoluteDistance::<i32>::default(),
        StabilityMap::new_from_constant(100),
    )
    .unwrap();
    let chain = make_chain_tm(&transformation, &measurement).unwrap();
    assert_eq!(chain.invoke(&4).unwrap(), 10);
    assert_eq!(chain.map(&2).unwrap(), 6);
    assert_eq!(chain.map(&2).unwrap(), measurement.map(&2).unwrap());
}

#[test]
fn chain_rejects_unlike_metrics_after_like_domains() {
    // the metrics of the library have no parameters, so two of one type
    // never differ; what differs in type does not compile
    let inner = counting(None);
    let outer = counting(None);
    assert!(make_chain_tt(&outer, &inner).is_ok());
    let nullable = AtomDomain::<i32> { bounds: None, nullable: true };
    let measurement = Measurement {
        input_domain: VectorDomain::new(nullable, None),
        function: Function::new(|rows: &Vec<i32>| rows.len()),
        input_metric: SymmetricDistance::default(),
        output_measure: MaxDivergence::<u32>::default(),
        privacy_map: PrivacyMap::new_from_constant(1),
    };
    let error = make_chain_mt(&measurement, &inner).err().unwrap();
    assert_eq!(error.variant, ErrorVariant::DomainMismatch);
    assert_eq!(
        error.message.unwrap(),
        "Intermediate domains don't match. See https://github.com/opendp/opendp/discussions/297\n    output_domain: VectorDomain(AtomDomain(unbounded))\n    input_domain:  VectorDomain(AtomDomain(unbounded, nullable))\n"
    );
}
