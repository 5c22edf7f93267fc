//! What holds of every composition: budgets are spent one by one and never
//! given back, and the total loss depends on which budgets were declared,
//! not on their order nor on what was asked.

use crate::combinators::composition::{budget_outcome, composition_made, invoke_step, Compositor};
use crate::error::{ErrorVariant, Fallible};
use crate::interactive::Answer;
use crate::measurement::Measurement;
use crate::measures::{sum_from, MaxDivergence};
use crate::spaces::{Measure, Metric, MetricSpace};
use crate::traits::arithmetic::Integer;
use crate::traits::ordering::TotalOrd;
use vstd::prelude::*;
use vstd::seq_lib::{to_multiset_contains, to_multiset_len, to_multiset_remove};

verus! {

/// The number of releases among the answers.
pub open spec fn releases_in<TO>(answers: Seq<Fallible<Answer<TO>>>) -> nat
    decreases answers.len(),
{
    if answers.len() == 0 {
        0
    } else {
        releases_in(answers.drop_last()) + if answers.last() is Ok {
            1nat
        } else {
            0nat
        }
    }
}

/// One query to a compositor either gives a release and spends the next
/// budget, or fails and leaves the state as it was. With no budget left it
/// fails with `FailedFunction`.
pub proof fn query_spends_one_budget_or_none<DI, TO, MI, MO>(
    state: Compositor<DI, TO, MI, MO>,
    measurement: Measurement<DI, TO, MI, MO>,
    next: Compositor<DI, TO, MI, MO>,
    answer: Fallible<Answer<TO>>,
) where
    DI: MetricSpace<MI>,
    TO: 'static,
    MI: Metric,
    MO: Measure,
    DI::Carrier: 'static,
    MI::Distance: 'static,
    MO::Distance: 'static + TotalOrd,

    requires
        invoke_step(state, measurement, next, answer),
    ensures
        answer is Ok ==> state.remaining().len() > 0 && next == state.charged()
            && next.remaining() == state.remaining().drop_first(),
        answer is Err ==> next == state,
        state.remaining().len() == 0 ==> (answer matches Err(e) && e.variant
            == ErrorVariant::FailedFunction),
        next.d_mids == state.d_mids,
{
    if answer is Ok {
        assert(state.remaining().len() > 0);
        assert(state.spent < state.d_mids@.len());
        assert(state.d_mids@.len() == state.d_mids.len());
        assert(next.spent == state.spent + 1);
        assert(next == state.charged());
        assert(next.remaining() =~= state.remaining().drop_first());
    }
}

/// Whatever is asked of a fresh compositor with `k` budgets, and in
/// whatever order: the releases given and the budgets left always add up
/// to `k`. So at most `k` queries are answered with a release, a query that
/// fails takes nothing, and once `k` releases were given every further query
/// fails with `FailedFunction`.
///
/// `states[i]` is the state before query `i`, `states[i + 1]` the state
/// after it, and `answers[i]` its answer.
pub proof fn budget_is_enforced<DI, TO, MI, MO>(
    states: Seq<Compositor<DI, TO, MI, MO>>,
    queries: Seq<Measurement<DI, TO, MI, MO>>,
    answers: Seq<Fallible<Answer<TO>>>,
) where
    DI: MetricSpace<MI>,
    TO: 'static,
    MI: Metric,
    MO: Measure,
    DI::Carrier: 'static,
    MI::Distance: 'static,
    MO::Distance: 'static + TotalOrd,

    requires
        states.len() == queries.len() + 1,
        answers.len() == queries.len(),
        states[0].spent == 0,
        forall|i: int|
            0 <= i < queries.len() ==> #[trigger] invoke_step(
                states[i],
                queries[i],
                states[i + 1],
                answers[i],
            ),
    ensures
        releases_in(answers) + states.last().remaining().len() == states[0].d_mids@.len(),
        releases_in(answers) <= states[0].d_mids@.len(),
        states.last().d_mids == states[0].d_mids,
        forall|i: int|
            0 <= i < queries.len() && #[trigger] answers[i] is Err ==> states[i + 1] == states[i],
        forall|i: int|
            0 <= i < queries.len() && states[i].remaining().len() == 0 ==> (
            #[trigger] answers[i] matches Err(e) && e.variant == ErrorVariant::FailedFunction),
    decreases queries.len(),
{
    if queries.len() == 0 {
        assert(states[0].remaining() == states[0].d_mids@);
    } else {
        let n = queries.len() as int;
        let earlier_states = states.drop_last();
        let earlier_queries = queries.drop_last();
        let earlier_answers = answers.drop_last();
        assert forall|i: int| 0 <= i < earlier_queries.len() implies #[trigger] invoke_step(
            earlier_states[i],
            earlier_queries[i],
            earlier_states[i + 1],
            earlier_answers[i],
        ) by {
            assert(invoke_step(states[i], queries[i], states[i + 1], answers[i]));
        }
        budget_is_enforced(earlier_states, earlier_queries, earlier_answers);
        assert(invoke_step(states[n - 1], queries[n - 1], states[n], answers[n - 1]));
        query_spends_one_budget_or_none(states[n - 1], queries[n - 1], states[n], answers[n - 1]);
        assert(earlier_states.last() == states[n - 1]);
        assert(states.last() == states[n]);
        assert(answers.last() == answers[n - 1]);
        assert forall|i: int| 0 <= i < queries.len() && #[trigger] answers[i] is Err implies states[i
            + 1] == states[i] by {
            assert(invoke_step(states[i], queries[i], states[i + 1], answers[i]));
            query_spends_one_budget_or_none(states[i], queries[i], states[i + 1], answers[i]);
        }
        assert forall|i: int|
            0 <= i < queries.len() && states[i].remaining().len() == 0 implies (
        #[trigger] answers[i] matches Err(e) && e.variant == ErrorVariant::FailedFunction) by {
            assert(invoke_step(states[i], queries[i], states[i + 1], answers[i]));
            query_spends_one_budget_or_none(states[i], queries[i], states[i + 1], answers[i]);
        }
    }
}

/// The sum of the integers that the items stand for.
pub open spec fn total<Q: Integer>(items: Seq<Q>) -> int
    decreases items.len(),
{
    if items.len() == 0 {
        0
    } else {
        items[0].value() + total(items.drop_first())
    }
}

/// Whether no item stands for a negative integer.
pub open spec fn none_negative<Q: Integer>(items: Seq<Q>) -> bool {
    forall|i: int| 0 <= i < items.len() ==> 0 <= (#[trigger] items[i]).value()
}

/// The sum of items of which none is negative is not negative.
pub proof fn total_is_not_negative<Q: Integer>(items: Seq<Q>)
    requires
        none_negative(items),
    ensures
        0 <= total(items),
    decreases items.len(),
{
    if items.len() > 0 {
        assert(0 <= items[0].value());
        assert forall|i: int| 0 <= i < items.drop_first().len() implies 0 <= (
        #[trigger] items.drop_first()[i]).value() by {
            assert(items.drop_first()[i] == items[i + 1]);
        }
        total_is_not_negative(items.drop_first());
    }
}

/// Taking an item out of a sequence takes its integer out of the sum.
pub proof fn total_without<Q: Integer>(items: Seq<Q>, i: int)
    requires
        0 <= i < items.len(),
    ensures
        total(items) == items[i].value() + total(items.remove(i)),
    decreases items.len(),
{
    if i == 0 {
        assert(items.remove(0) == items.drop_first());
    } else {
        total_without(items.drop_first(), i - 1);
        assert(items.drop_first()[i - 1] == items[i]);
        assert(items.remove(i).drop_first() == items.drop_first().remove(i - 1));
        assert(items.remove(i)[0] == items[0]);
    }
}

/// Two sequences that hold the same items, each as often as the other, have
/// the same sum.
pub proof fn total_ignores_order<Q: Integer>(a: Seq<Q>, b: Seq<Q>)
    requires
        a.to_multiset() == b.to_multiset(),
    ensures
        total(a) == total(b),
    decreases a.len(),
{
    to_multiset_len(a);
    to_multiset_len(b);
    if a.len() > 0 {
        let x = a[0];
        to_multiset_contains(a, x);
        to_multiset_contains(b, x);
        assert(a.contains(x));
        let j = choose|j: int| 0 <= j < b.len() && b[j] == x;
        to_multiset_remove(a, 0);
        to_multiset_remove(b, j);
        assert(a.remove(0) == a.drop_first());
        total_ignores_order(a.drop_first(), b.remove(j));
        total_without(b, j);
    }
}

/// Budgets of which none is negative add up, from a start that is not
/// negative, to the sum of their integers, cut off at the top of the type.
pub proof fn sum_is_total_cut_off<Q: Integer>(start: Q, items: Seq<Q>)
    requires
        0 <= start.value(),
        none_negative(items),
    ensures
        sum_from(start, items) matches Some(sum) && sum.value() == if start.value() + total(items)
            > Q::highest() {
            Q::highest()
        } else {
            start.value() + total(items)
        },
    decreases items.len(),
{
    Q::model(start, start);
    if items.len() > 0 {
        let first = items[0];
        let rest = items.drop_first();
        assert(0 <= first.value());
        Q::model(start, first);
        let next = start.inf_add_spec(&first)->Some_0;
        assert forall|i: int| 0 <= i < rest.len() implies 0 <= (#[trigger] rest[i]).value() by {
            assert(rest[i] == items[i + 1]);
        }
        total_is_not_negative(rest);
        sum_is_total_cut_off(next, rest);
    }
}

/// The total of the declared budgets does not depend on the order in
/// which they were declared: two lists that hold the same budgets, each as
/// often as the other and none negative, have the same total, and that is
/// what the privacy map of either compositor gives.
pub proof fn total_loss_ignores_order<Q: Integer>(d_mids: Seq<Q>, reordered: Seq<Q>)
    requires
        d_mids.to_multiset() == reordered.to_multiset(),
        none_negative(d_mids),
    ensures
        sum_from(Q::zero_spec(), d_mids) is Some,
        sum_from(Q::zero_spec(), d_mids) == sum_from(Q::zero_spec(), reordered),
{
    let zero = Q::zero_spec();
    Q::model(zero, zero);
    assert forall|i: int| 0 <= i < reordered.len() implies 0 <= (#[trigger] reordered[i]).value() by {
        to_multiset_contains(reordered, reordered[i]);
        to_multiset_contains(d_mids, reordered[i]);
        assert(reordered.contains(reordered[i]));
        let j = choose|j: int| 0 <= j < d_mids.len() && d_mids[j] == reordered[i];
        assert(0 <= d_mids[j].value());
    }
    sum_is_total_cut_off(zero, d_mids);
    sum_is_total_cut_off(zero, reordered);
    total_ignores_order(d_mids, reordered);
    let s1 = sum_from(zero, d_mids)->Some_0;
    let s2 = sum_from(zero, reordered)->Some_0;
    Q::model(s1, s2);
}

/// Two compositors under pure differential privacy, made for the same
/// bound on the inputs from budgets that are the same but for their order
/// (none negative), have the same privacy map. The map is part of the
/// measurement and not of the queryables it releases, so no query changes
/// it.
pub proof fn privacy_bound_ignores_order<DI, TO, MI, Q>(
    input_domain: DI,
    input_metric: MI,
    d_in: MI::Distance,
    d_mids: Seq<Q>,
    reordered: Seq<Q>,
    concurrent: bool,
    compositor: Measurement<DI, Compositor<DI, TO, MI, MaxDivergence<Q>>, MI, MaxDivergence<Q>>,
    other: Measurement<DI, Compositor<DI, TO, MI, MaxDivergence<Q>>, MI, MaxDivergence<Q>>,
) where
    DI: MetricSpace<MI> + 'static,
    TO: 'static,
    MI: Metric + 'static,
    Q: Integer + 'static,
    DI::Carrier: 'static + Clone,
    MI::Distance: 'static + TotalOrd,

    requires
        d_mids.to_multiset() == reordered.to_multiset(),
        none_negative(d_mids),
        composition_made(
            input_domain,
            input_metric,
            compositor.output_measure,
            d_in,
            d_mids,
            concurrent,
            Ok(compositor),
        ),
        composition_made(
            input_domain,
            input_metric,
            other.output_measure,
            d_in,
            reordered,
            concurrent,
            Ok(other),
        ),
    ensures
        forall|asked: MI::Distance, bound: Fallible<Q>|
            compositor.privacy_map.outcome(asked, bound) <==> other.privacy_map.outcome(
                asked,
                bound,
            ),
{
    total_loss_ignores_order(d_mids, reordered);
    let d_out = sum_from(Q::zero_spec(), d_mids)->Some_0;
    assert forall|asked: MI::Distance, bound: Fallible<Q>|
        compositor.privacy_map.outcome(asked, bound) <==> other.privacy_map.outcome(
            asked,
            bound,
        ) by {
        assert(compositor.privacy_map.outcome(asked, bound) <==> budget_outcome(
            d_in,
            d_out,
            asked,
            bound,
        ));
        assert(other.privacy_map.outcome(asked, bound) <==> budget_outcome(
            d_in,
            d_out,
            asked,
            bound,
        ));
    }
}

} // verus!
