use opendp::combinators::composition::{
    make_concurrent_composition, make_sequential_composition, Compositor,
};
use opendp::domains::AllDomain;
use opendp::error::{Error, ErrorVariant, Fallible};
use opendp::function::Function;
use opendp::interactive::{ChildChange, InternalQuery, Query, Queryable};
use opendp::maps::PrivacyMap;
use opendp::measurement::Measurement;
use opendp::measures::MaxDivergence;
use opendp::metrics::DiscreteDistance;
use opendp::poly::{eval_poly, Polymorphic};
use opendp::traits::arithmetic::{InfAdd, Zero};
use opendp::traits::ordering::{Comparison, TotalOrd};

/// A privacy loss as a floating-point number.
#[derive(Clone, Copy, Debug, PartialEq)]
struct Epsilon(f64);

impl TotalOrd for Epsilon {
    fn total_cmp(&self, other: &Self) -> Fallible<Comparison> {
        match self.0.partial_cmp(&other.0) {
            Some(std::cmp::Ordering::Less) => Ok(Comparison::Less),
            Some(std::cmp::Ordering::Equal) => Ok(Comparison::Equal),
            Some(std::cmp::Ordering::Greater) => Ok(Comparison::Greater),
            None => Err(Error::new(ErrorVariant::FailedFunction, "a loss is not a number")),
        }
    }
}

impl InfAdd for Epsilon {
    fn inf_add(&self, v: &Self) -> Fallible<Self> {
        Ok(Epsilon(self.0 + v.0))
    }
}

impl Zero for Epsilon {
    fn zero() -> Self {
        Epsilon(0.0)
    }
}

type Plain = Compositor<AllDomain<bool>, bool, DiscreteDistance, MaxDivergence<Epsilon>>;

type Nested = Compositor<AllDomain<bool>, Release, DiscreteDistance, MaxDivergence<Epsilon>>;

/// What the root compositor releases: a flag, or a compositor of its own.
enum Release {
    Flag(bool),
    Plain(Plain),
    Nested(Nested),
}

impl Polymorphic<bool> for Release {
    fn wrap(value: bool) -> Self {
        Release::Flag(value)
    }

    fn unwrap(self) -> Result<bool, Self> {
        match self {
            Release::Flag(value) => Ok(value),
            other => Err(other),
        }
    }
}

impl Polymorphic<Plain> for Release {
    fn wrap(value: Plain) -> Self {
        Release::Plain(value)
    }

    fn unwrap(self) -> Result<Plain, Self> {
        match self {
            Release::Plain(value) => Ok(value),
            other => Err(other),
        }
    }
}

impl Polymorphic<Nested> for Release {
    fn wrap(value: Nested) -> Self {
        Release::Nested(value)
    }

    fn unwrap(self) -> Result<Nested, Self> {
        match self {
            Release::Nested(value) => Ok(value),
            other => Err(other),
        }
    }
}

/// A measurement that releases the flag it is given, at the loss `loss`
/// for neighbouring inputs.
fn flag(
    loss: f64,
) -> Measurement<AllDomain<bool>, bool, DiscreteDistance, MaxDivergence<Epsilon>> {
    Measurement::new(
        AllDomain::new(),
        Function::new(|arg: &bool| *arg),
        DiscreteDistance::default(),
        MaxDivergence::default(),
        PrivacyMap::new(move |d_in: &u32| Epsilon(loss * *d_in as f64)),
    )
    .unwrap()
}

#[test]
fn test_sequential_composition() -> Fallible<()> {
    // construct sequential compositor
    let root = make_sequential_composition(
        AllDomain::new(),
        DiscreteDistance::default(),
        MaxDivergence::default(),
        1,
        vec![Epsilon(0.1), Epsilon(0.1), Epsilon(0.3), Epsilon(0.5)],
    )?;

    // pass dataset in and receive a queryable
    let mut queryable = root.invoke(&true)?;

    let rr_poly_query = flag(0.0).into_poly::<Release>();
    let rr_query = flag(0.0);

    // pass queries into the compositor's queryable
    let _answer1: bool = eval_poly(&mut queryable, &rr_poly_query)?;
    let _answer2: bool = eval_poly(&mut queryable, &rr_poly_query)?;

    // pass a sequential compositor into the root compositor;
    // this compositor expects that all outputs are flags
    let sc_query_3 = make_sequential_composition::<_, bool, _, _>(
        AllDomain::<bool>::new(),
        DiscreteDistance::default(),
        MaxDivergence::default(),
        1,
        vec![Epsilon(0.1), Epsilon(0.1)],
    )?
    .into_poly::<Release>();

    let mut answer3: Plain = eval_poly(&mut queryable, &sc_query_3)?;
    let _answer3_1: bool = answer3.eval(&rr_query)?;
    let _answer3_2: bool = answer3.eval(&rr_query)?;

    // pass a sequential compositor into the root compositor;
    // this compositor expects that all outputs are containers
    let sc_query_4 = make_sequential_composition::<_, Release, _, _>(
        AllDomain::<bool>::new(),
        DiscreteDistance::default(),
        MaxDivergence::default(),
        1,
        vec![Epsilon(0.2), Epsilon(0.3)],
    )?
    .into_poly::<Release>();

    let mut answer4: Nested = eval_poly(&mut queryable, &sc_query_4)?;
    let _answer4_1: bool = eval_poly(&mut answer4, &rr_poly_query)?;
    let _answer4_2: bool = eval_poly(&mut answer4, &rr_poly_query)?;

    Ok(())
}

#[test]
fn four_budgets_answer_four_queries() {
    let root = make_sequential_composition(
        AllDomain::new(),
        DiscreteDistance::default(),
        MaxDivergence::default(),
        1,
        vec![Epsilon(0.1), Epsilon(0.1), Epsilon(0.3), Epsilon(0.5)],
    )
    .unwrap();
    assert_eq!(root.map(&1).unwrap(), Epsilon(1.0));
    assert_eq!(root.map(&1).unwrap().0, 0.1 + 0.1 + 0.3 + 0.5);

    let mut queryable: Plain = root.invoke(&true).unwrap();
    assert_eq!(queryable.remaining_queries(), 4);
    for spent in 1..=4 {
        assert!(queryable.eval(&flag(0.1)).unwrap());
        assert_eq!(queryable.remaining_queries(), 4 - spent);
    }
    let error = queryable.eval(&flag(0.1)).err().unwrap();
    assert_eq!(error.variant, ErrorVariant::FailedFunction);
    assert_eq!(queryable.remaining_queries(), 0);

    // the bound was fixed when the compositor was made
    assert_eq!(root.map(&1).unwrap(), Epsilon(1.0));
    assert_eq!(root.map(&0).unwrap(), Epsilon(1.0));
    let error = root.map(&2).err().unwrap();
    assert_eq!(error.variant, ErrorVariant::RelationDebug);
}

#[test]
fn a_query_over_budget_takes_nothing() {
    let root = make_sequential_composition(
        AllDomain::new(),
        DiscreteDistance::default(),
        MaxDivergence::default(),
        1,
        vec![Epsilon(0.1), Epsilon(0.5)],
    )
    .unwrap();
    let mut queryable: Plain = root.invoke(&false).unwrap();

    let error = queryable.eval(&flag(0.3)).err().unwrap();
    assert_eq!(error.variant, ErrorVariant::FailedFunction);
    assert_eq!(error.message.unwrap(), "insufficient budget for query");
    assert_eq!(queryable.remaining_queries(), 2);

    // budgets go in the order in which they were declared
    assert!(!queryable.eval(&flag(0.1)).unwrap());
    assert_eq!(queryable.remaining_queries(), 1);
    assert!(!queryable.eval(&flag(0.3)).unwrap());
    assert_eq!(queryable.remaining_queries(), 0);
    let error = queryable.eval(&flag(0.0)).err().unwrap();
    assert_eq!(error.variant, ErrorVariant::FailedFunction);
    assert_eq!(error.message.unwrap(), "out of queries");
}

#[test]
fn a_failing_measurement_takes_nothing() {
    let root = make_sequential_composition(
        AllDomain::new(),
        DiscreteDistance::default(),
        MaxDivergence::default(),
        1,
        vec![Epsilon(0.1)],
    )
    .unwrap();
    let mut queryable: Plain = root.invoke(&false).unwrap();
    let broken = Measurement::new(
        AllDomain::new(),
        Function::new_fallible(|_arg: &bool| {
            Err(Error::new(ErrorVariant::FailedCast, "broken"))
        }),
        DiscreteDistance::default(),
        MaxDivergence::default(),
        PrivacyMap::new(|_d_in: &u32| Epsilon(0.0)),
    )
    .unwrap();
    let error = queryable.eval(&broken).err().unwrap();
    assert_eq!(error.variant, ErrorVariant::FailedCast);
    assert_eq!(queryable.remaining_queries(), 1);
}

#[test]
fn no_budget_makes_no_compositor() {
    let made = make_sequential_composition::<AllDomain<bool>, bool, _, _>(
        AllDomain::new(),
        DiscreteDistance::default(),
        MaxDivergence::<Epsilon>::default(),
        1,
        vec![],
    );
    assert_eq!(made.err().unwrap().variant, ErrorVariant::MakeMeasurement);
}

#[test]
fn integer_budgets_add_up_and_stay_at_the_top() {
    let root = make_sequential_composition::<AllDomain<bool>, bool, _, _>(
        AllDomain::new(),
        DiscreteDistance::default(),
        MaxDivergence::<u32>::default(),
        1,
        vec![1, 1, 3, 5],
    )
    .unwrap();
    assert_eq!(root.map(&1).unwrap(), 10);
    let reordered = make_sequential_composition::<AllDomain<bool>, bool, _, _>(
        AllDomain::new(),
        DiscreteDistance::default(),
        MaxDivergence::<u32>::default(),
        1,
        vec![5, 1, 3, 1],
    )
    .unwrap();
    assert_eq!(reordered.map(&1).unwrap(), 10);
    let full = make_sequential_composition::<AllDomain<bool>, bool, _, _>(
        AllDomain::new(),
        DiscreteDistance::default(),
        MaxDivergence::<u32>::default(),
        1,
        vec![u32::MAX, 7],
    )
    .unwrap();
    assert_eq!(full.map(&1).unwrap(), u32::MAX);
}

#[test]
fn only_the_last_child_may_change() {
    let root = make_sequential_composition(
        AllDomain::new(),
        DiscreteDistance::default(),
        MaxDivergence::default(),
        1,
        vec![Epsilon(0.1), Epsilon(0.1), Epsilon(0.1)],
    )
    .unwrap();
    let mut queryable: Plain = root.invoke(&true).unwrap();
    queryable.eval(&flag(0.1)).unwrap();

    let latest = InternalQuery::ChildChange(ChildChange { id: 2 });
    assert!(queryable.eval_internal(&latest).is_ok());
    let stale = InternalQuery::ChildChange(ChildChange { id: 3 });
    let error = queryable.eval_internal(&stale).err().unwrap();
    assert_eq!(error.variant, ErrorVariant::FailedFunction);
    assert_eq!(queryable.remaining_queries(), 2);

    let unknown = InternalQuery::Other("reset".to_string());
    let error = queryable.eval_query(Query::Internal(&unknown)).err().unwrap();
    assert_eq!(error.variant, ErrorVariant::FailedFunction);
    assert_eq!(error.message.unwrap(), "unrecognized query!");
}

#[test]
fn concurrent_children_may_change_in_any_order() {
    let root = make_concurrent_composition(
        AllDomain::new(),
        DiscreteDistance::default(),
        MaxDivergence::default(),
        1,
        vec![Epsilon(0.1), Epsilon(0.1), Epsilon(0.1)],
    )
    .unwrap();
    let mut queryable: Plain = root.invoke(&true).unwrap();
    queryable.eval(&flag(0.1)).unwrap();
    queryable.eval(&flag(0.1)).unwrap();

    let stale = InternalQuery::ChildChange(ChildChange { id: 2 });
    assert!(queryable.eval_internal(&stale).is_ok());
    assert_eq!(queryable.remaining_queries(), 1);
    assert!(queryable.eval(&flag(0.1)).is_ok());
    let error = queryable.eval(&flag(0.1)).err().unwrap();
    assert_eq!(error.variant, ErrorVariant::FailedFunction);
}
