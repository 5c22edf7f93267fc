//! Queryables: releases that go on to answer queries, one at a time, each
//! answer a step from one state to the next.

use crate::error::{Error, ErrorVariant, Fallible};
use vstd::prelude::*;

verus! {

/// The notice that a queryable gives to the queryable it came from before
/// it answers a query of its own. `id` tells which child it is: the number
/// of budgets that were left when it was released.
pub struct ChildChange {
    pub id: usize,
}

/// A message between queryables, which the user never sees.
pub enum InternalQuery {
    /// A child is about to change.
    ChildChange(ChildChange),
    /// A message of another kind, by its name.
    Other(String),
}

/// The answer to a message between queryables.
pub enum InternalAnswer {
    /// The change may go ahead.
    Approved,
}

/// What a queryable is asked: a query of the user, or a message from
/// another queryable.
pub enum Query<'a, Q> {
    External(&'a Q),
    Internal(&'a InternalQuery),
}

/// What a queryable answers: to the user, or to another queryable.
pub enum Answer<A> {
    External(A),
    Internal(InternalAnswer),
}

/// Whether `answer` is what the user gets when the queryable answered
/// `raw` to a query of the user: the answer itself, the failure itself, or,
/// where the queryable answered as if to another queryable,
/// `FailedFunction`.
pub open spec fn external_part<A>(raw: Fallible<Answer<A>>, answer: Fallible<A>) -> bool {
    match raw {
        Ok(Answer::External(a)) => answer == Ok::<A, Error>(a),
        Ok(Answer::Internal(_)) => answer matches Err(e) && e.variant
            == ErrorVariant::FailedFunction,
        Err(e) => answer == Err::<A, Error>(e),
    }
}

/// Whether `answer` is what another queryable gets when the queryable
/// answered `raw` to its message: the answer itself, the failure itself,
/// or, where the queryable answered as if to the user, `FailedFunction`.
pub open spec fn internal_part<A>(raw: Fallible<Answer<A>>, answer: Fallible<InternalAnswer>) -> bool {
    match raw {
        Ok(Answer::Internal(a)) => answer == Ok::<InternalAnswer, Error>(a),
        Ok(Answer::External(_)) => answer matches Err(e) && e.variant
            == ErrorVariant::FailedFunction,
        Err(e) => answer == Err::<InternalAnswer, Error>(e),
    }
}

/// A state machine that answers queries of type `Q` with answers of type
/// `A`. It is used by one caller at a time; each query is one step.
pub trait Queryable<Q, A>: Sized {
    /// Whether answering `query` in the state `self` may give `answer` and
    /// leave the state `next`.
    spec fn transition(&self, query: Query<Q>, next: &Self, answer: Fallible<Answer<A>>) -> bool;

    /// Answers a query of the user or a message of another queryable.
    fn eval_query(&mut self, query: Query<Q>) -> (answer: Fallible<Answer<A>>)
        ensures
            old(self).transition(query, final(self), answer),
    ;

    /// Answers a query of the user.
    fn eval(&mut self, query: &Q) -> (answer: Fallible<A>)
        ensures
            exists|raw: Fallible<Answer<A>>| #[trigger]
                old(self).transition(Query::External(query), final(self), raw) && external_part(
                    raw,
                    answer,
                ),
    {
        match self.eval_query(Query::External(query)) {
            Ok(Answer::External(a)) => Ok(a),
            Ok(Answer::Internal(_)) => Err(
                Error::new(
                    ErrorVariant::FailedFunction,
                    "cannot return internal answer from an external query",
                ),
            ),
            Err(e) => Err(e),
        }
    }

    /// Answers a message of another queryable.
    fn eval_internal(&mut self, query: &InternalQuery) -> (answer: Fallible<InternalAnswer>)
        ensures
            exists|raw: Fallible<Answer<A>>| #[trigger]
                old(self).transition(Query::Internal(query), final(self), raw) && internal_part(
                    raw,
                    answer,
                ),
    {
        match self.eval_query(Query::Internal(query)) {
            Ok(Answer::Internal(a)) => Ok(a),
            Ok(Answer::External(_)) => Err(
                Error::new(
                    ErrorVariant::FailedFunction,
                    "cannot return external answer from an internal query",
                ),
            ),
            Err(e) => Err(e),
        }
    }
}

} // verus!
