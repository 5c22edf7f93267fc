use opendp::error::{Error, ErrorVariant, Fallible};
use opendp::measurements::discrete_exponential::{
    make_base_discrete_exponential, select_best, NoisyScore, Optimize,
};
use opendp::samplers::fill_bytes;
use opendp::traits::arithmetic::{InfCast, InfDiv, Zero};
use opendp::traits::ordering::{Comparison, TotalOrd};

/// A noisy score as a floating-point number.
#[derive(Clone, Copy, Debug, PartialEq)]
struct Noisy(f64);

impl TotalOrd for Noisy {
    fn total_cmp(&self, other: &Self) -> Fallible<Comparison> {
        match self.0.partial_cmp(&other.0) {
            Some(std::cmp::Ordering::Less) => Ok(Comparison::Less),
            Some(std::cmp::Ordering::Equal) => Ok(Comparison::Equal),
            Some(std::cmp::Ordering::Greater) => Ok(Comparison::Greater),
            None => Err(Error::new(ErrorVariant::FailedFunction, "a score is not a number")),
        }
    }
}

impl Zero for Noisy {
    fn zero() -> Self {
        Noisy(0.0)
    }
}

impl InfCast<f64> for Noisy {
    fn inf_cast(v: f64) -> Fallible<Self> {
        Ok(Noisy(v))
    }
}

impl InfDiv for Noisy {
    fn inf_div(&self, v: &Self) -> Fallible<Self> {
        Ok(Noisy(self.0 / v.0))
    }
}

impl NoisyScore<f64> for Noisy {
    fn noisy_score(score: &f64, temperature: &Self, optimize: &Optimize) -> Fallible<Self> {
        let sign = match optimize {
            Optimize::Max => 1.0,
            Optimize::Min => -1.0,
        };
        let mut bytes = [0u8; 8];
        fill_bytes(&mut bytes)?;
        let uniform = ((u64::from_ne_bytes(bytes) >> 11) as f64 + 0.5) / (1u64 << 53) as f64;
        Ok(Noisy(sign * score / temperature.0 - (-uniform.ln()).ln()))
    }
}

/// A score that carries no noise.
#[derive(Clone, Copy, Debug, PartialEq)]
struct Exact(i64);

impl TotalOrd for Exact {
    fn total_cmp(&self, other: &Self) -> Fallible<Comparison> {
        self.0.total_cmp(&other.0)
    }
}

impl Zero for Exact {
    fn zero() -> Self {
        Exact(0)
    }
}

impl InfCast<i64> for Exact {
    fn inf_cast(v: i64) -> Fallible<Self> {
        Ok(Exact(v))
    }
}

impl InfDiv for Exact {
    fn inf_div(&self, v: &Self) -> Fallible<Self> {
        self.0.inf_div(&v.0).map(Exact)
    }
}

impl NoisyScore<i64> for Exact {
    fn noisy_score(score: &i64, temperature: &Self, optimize: &Optimize) -> Fallible<Self> {
        if *score == i64::MIN {
            return Err(Error::new(ErrorVariant::FailedFunction, "no noise for this score"));
        }
        Ok(Exact(match optimize {
            Optimize::Max => *score / temperature.0,
            Optimize::Min => -*score / temperature.0,
        }))
    }
}

#[test]
fn mod_test_exponential() -> Fallible<()> {
    let de = make_base_discrete_exponential(Noisy(1.), Optimize::Max)?;
    let release = de.invoke(&vec![1., 2., 3., 2., 1.])?;
    println!("{:?}", release);
    assert!(release < 5);

    Ok(())
}

#[test]
fn the_temperature_must_be_positive() {
    let zero = make_base_discrete_exponential::<f64, _>(Noisy(0.), Optimize::Max);
    assert_eq!(zero.err().unwrap().variant, ErrorVariant::MakeMeasurement);
    let negative = make_base_discrete_exponential::<f64, _>(Noisy(-1.), Optimize::Min);
    assert_eq!(negative.err().unwrap().variant, ErrorVariant::MakeMeasurement);
    let nothing = make_base_discrete_exponential::<f64, _>(Noisy(f64::NAN), Optimize::Min);
    assert_eq!(nothing.err().unwrap().variant, ErrorVariant::MakeMeasurement);
}

#[test]
fn the_loss_is_the_distance_over_the_temperature() {
    let de = make_base_discrete_exponential::<f64, _>(Noisy(4.), Optimize::Max).unwrap();
    assert_eq!(de.map(&2.).unwrap(), Noisy(0.5));
    assert_eq!(de.map(&0.).unwrap(), Noisy(0.));
    assert_eq!(de.map(&-1.).err().unwrap().variant, ErrorVariant::InvalidDistance);
    assert!(de.check(&2., &Noisy(0.5)).unwrap());
    assert!(!de.check(&2., &Noisy(0.4)).unwrap());

    let whole = make_base_discrete_exponential::<i64, _>(Exact(4), Optimize::Max).unwrap();
    assert_eq!(whole.map(&9).unwrap(), Exact(3));
    assert_eq!(whole.map(&8).unwrap(), Exact(2));
    assert_eq!(whole.map(&0).unwrap(), Exact(0));
    assert_eq!(whole.map(&-1).err().unwrap().variant, ErrorVariant::InvalidDistance);
}

#[test]
fn without_noise_the_best_is_selected() {
    let max = make_base_discrete_exponential::<i64, _>(Exact(1), Optimize::Max).unwrap();
    assert_eq!(max.invoke(&vec![1, 2, 3, 2, 1]).unwrap(), 2);
    assert_eq!(max.invoke(&vec![3, 2, 3, 2, 1]).unwrap(), 2);
    assert_eq!(max.invoke(&vec![7]).unwrap(), 0);
    assert_eq!(max.invoke(&vec![]).unwrap(), 0);
    let min = make_base_discrete_exponential::<i64, _>(Exact(1), Optimize::Min).unwrap();
    assert_eq!(min.invoke(&vec![1, 2, 3, 2, 1]).unwrap(), 4);
    let error = max.invoke(&vec![1, i64::MIN, i64::MIN]).err().unwrap();
    assert_eq!(error.message.unwrap(), "no noise for this score");
}

#[test]
fn select_best_takes_the_last_of_the_greatest() {
    assert_eq!(select_best(&vec![1, 5, 3]).unwrap(), 1);
    assert_eq!(select_best(&vec![5, 1, 5, 3]).unwrap(), 2);
    assert_eq!(select_best(&vec![2, 2, 2]).unwrap(), 2);
    assert_eq!(select_best(&vec![-3]).unwrap(), 0);
    assert_eq!(select_best(&Vec::<i32>::new()).unwrap(), 0);
    let error = select_best(&vec![Noisy(1.), Noisy(f64::NAN)]).err().unwrap();
    assert_eq!(error.variant, ErrorVariant::FailedFunction);
}
