use opendp::domains::AllDomain;
use opendp::error::{ErrorVariant, Fallible};
use opendp::function::Function;
use opendp::maps::PrivacyMap;
use opendp::measurement::Measurement;
use opendp::measures::MaxDivergence;
use opendp::metrics::AbsoluteDistance;
use opendp::poly::{PolyValue, Polymorphic};

/// A container for the releases of this file.
#[derive(Debug, PartialEq)]
enum Value {
    Real(f64),
    Whole(i32),
}

impl Polymorphic<f64> for Value {
    fn wrap(value: f64) -> Self {
        Value::Real(value)
    }

    fn unwrap(self) -> Result<f64, Self> {
        match self {
            Value::Real(value) => Ok(value),
            other => Err(other),
        }
    }
}

impl Polymorphic<i32> for Value {
    fn wrap(value: i32) -> Self {
        Value::Whole(value)
    }

    fn unwrap(self) -> Result<i32, Self> {
        match self {
            Value::Whole(value) => Ok(value),
            other => Err(other),
        }
    }
}

#[test]
fn test_poly_measurement() -> Fallible<()> {
    // a mechanism that adds noise of scale zero
    let op_plain = Measurement::new(
        AllDomain::<f64>::new(),
        Function::new(|arg: &f64| *arg),
        AbsoluteDistance::<f64>::default(),
        MaxDivergence::<f64>::default(),
        PrivacyMap::new(|_d_in: &f64| f64::INFINITY),
    )?;
    let arg = 100.;
    let res_plain = op_plain.invoke(&arg)?;
    assert_eq!(res_plain, arg);
    let op_poly = op_plain.into_poly::<Value>();
    let res_poly = op_poly.invoke_poly::<f64>(&arg)?;
    assert_eq!(res_poly, arg);
    let res_bogus = op_poly.invoke_poly::<i32>(&arg);
    assert_eq!(res_bogus.err().unwrap().variant, ErrorVariant::FailedCast);
    Ok(())
}

#[test]
fn poly_function_keeps_failures() {
    let failing: Function<u8, i32> = Function::new_fallible(|_arg: &u8| {
        Err(opendp::error::Error::new(ErrorVariant::FailedFunction, "no"))
    });
    let poly = failing.into_poly::<PolyValue>();
    let error = poly.eval_poly::<i32>(&1).err().unwrap();
    assert_eq!(error.variant, ErrorVariant::FailedFunction);
    assert_eq!(error.message.unwrap(), "no");
}

#[test]
fn poly_value_gives_back_what_went_in() {
    let function: Function<u8, i32> = Function::new(|arg: &u8| *arg as i32 * 2);
    let poly = function.into_poly::<PolyValue>();
    assert_eq!(poly.eval_poly::<i32>(&21).unwrap(), 42);
    assert_eq!(poly.eval_poly::<i64>(&21).err().unwrap().variant, ErrorVariant::FailedCast);
    assert_eq!(poly.eval_poly::<bool>(&21).err().unwrap().variant, ErrorVariant::FailedCast);

    let text: PolyValue = Polymorphic::<String>::wrap("alpha".to_string());
    let back: Result<String, PolyValue> = text.unwrap();
    assert_eq!(back.ok().unwrap(), "alpha");
    let unit: PolyValue = Polymorphic::<()>::wrap(());
    let wrong: Result<usize, PolyValue> = unit.unwrap();
    assert!(wrong.is_err());
}
