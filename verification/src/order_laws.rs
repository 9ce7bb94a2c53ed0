//! What holds of every ordered plan.

use vstd::prelude::*;
use vstd::seq_lib::{
    to_multiset_contains, to_multiset_insert, to_multiset_len, to_multiset_remove,
};
use crate::orderer::{
    is_first_ready, lemma_first_ready_unique, must_precede, ready, respects_order, stable_order,
};
use crate::steps::StepView;

verus! {

/// A plan from which one step is taken away still respects the order.
pub proof fn lemma_remove_respects(plan: Seq<StepView>, k: int)
    requires
        respects_order(plan),
        0 <= k < plan.len(),
    ensures
        respects_order(plan.remove(k)),
{
    let rest = plan.remove(k);
    assert forall|i: int, j: int|
        0 <= i < rest.len() && 0 <= j < rest.len() && must_precede(rest[i], rest[j]) implies i
        < j by {
        let i0 = if i < k {
            i
        } else {
            i + 1
        };
        let j0 = if j < k {
            j
        } else {
            j + 1
        };
        assert(rest[i] == plan[i0]);
        assert(rest[j] == plan[j0]);
        assert(must_precede(plan[i0], plan[j0]));
    }
}

/// Where some step is ready, some step is the first that is.
pub proof fn lemma_ready_has_first(steps: Seq<StepView>, i: int)
    requires
        0 <= i < steps.len(),
        ready(steps, i),
    ensures
        exists|k: int| is_first_ready(steps, k),
    decreases i,
{
    if forall|k: int| 0 <= k < i ==> !ready(steps, k) {
        assert(is_first_ready(steps, i));
    } else {
        let k = choose|k: int| 0 <= k < i && ready(steps, k);
        lemma_ready_has_first(steps, k);
    }
}

/// An ordered plan holds the steps it was made from, each as often as it
/// was given.
pub proof fn law_order_keeps_steps(steps: Seq<StepView>)
    ensures
        stable_order(steps) matches Ok(plan) ==> plan.to_multiset() == steps.to_multiset(),
    decreases steps.len(),
{
    if steps.len() == 0 {
        assert(steps =~= Seq::<StepView>::empty());
    } else if exists|i: int| is_first_ready(steps, i) {
        let i = choose|i: int| is_first_ready(steps, i);
        let rest = steps.remove(i);
        law_order_keeps_steps(rest);
        match stable_order(rest) {
            Ok(tail) => {
                let plan = seq![steps[i]] + tail;
                assert(plan =~= tail.insert(0, steps[i]));
                to_multiset_insert(tail, 0, steps[i]);
                to_multiset_remove(steps, i);
                assert(steps.to_multiset().remove(steps[i]).insert(steps[i])
                    =~= steps.to_multiset()) by {
                    to_multiset_contains(steps, steps[i]);
                    assert(steps.contains(steps[i]));
                }
            },
            Err(left) => {},
        }
    }
}

/// In an ordered plan every step stands before each step that it has to
/// precede.
pub proof fn law_order_is_respected(steps: Seq<StepView>)
    ensures
        stable_order(steps) matches Ok(plan) ==> respects_order(plan),
    decreases steps.len(),
{
    if steps.len() > 0 && exists|i: int| is_first_ready(steps, i) {
        let i = choose|i: int| is_first_ready(steps, i);
        let rest = steps.remove(i);
        law_order_is_respected(rest);
        law_order_keeps_steps(rest);
        match stable_order(rest) {
            Ok(tail) => {
                let plan = seq![steps[i]] + tail;
                assert forall|a: int, b: int|
                    0 <= a < plan.len() && 0 <= b < plan.len() && must_precede(
                        plan[a],
                        plan[b],
                    ) implies a < b by {
                    if b == 0 {
                        if a == 0 {
                            assert(must_precede(steps[i], steps[i]));
                            assert(false);
                        } else {
                            assert(plan[a] == tail[a - 1]);
                            assert(tail.contains(tail[a - 1]));
                            to_multiset_contains(tail, tail[a - 1]);
                            to_multiset_contains(rest, tail[a - 1]);
                            let r = choose|r: int| 0 <= r < rest.len() && rest[r] == tail[a - 1];
                            let r0 = if r < i {
                                r
                            } else {
                                r + 1
                            };
                            assert(rest[r] == steps[r0]);
                            assert(must_precede(steps[r0], steps[i]));
                            assert(false);
                        }
                    } else if a > 0 {
                        assert(plan[a] == tail[a - 1]);
                        assert(plan[b] == tail[b - 1]);
                        assert(must_precede(tail[a - 1], tail[b - 1]));
                    }
                }
            },
            Err(left) => {},
        }
    }
}

/// Where ordering fails, the steps that are left are not empty, and each of
/// them has to wait for another of them.
pub proof fn law_left_steps_block_each_other(steps: Seq<StepView>)
    ensures
        stable_order(steps) matches Err(left) ==> left.len() > 0 && forall|i: int|
            0 <= i < left.len() ==> !ready(left, i),
    decreases steps.len(),
{
    if steps.len() > 0 {
        if exists|i: int| is_first_ready(steps, i) {
            let i = choose|i: int| is_first_ready(steps, i);
            law_left_steps_block_each_other(steps.remove(i));
        } else {
            assert forall|i: int| 0 <= i < steps.len() implies !ready(steps, i) by {
                if ready(steps, i) {
                    lemma_ready_has_first(steps, i);
                }
            }
        }
    }
}

/// Where ordering fails, no arrangement of the steps respects the order:
/// the failure is owed to the steps, not to the way they are taken.
pub proof fn law_failure_means_no_order(steps: Seq<StepView>, plan: Seq<StepView>)
    requires
        stable_order(steps) is Err,
        plan.to_multiset() == steps.to_multiset(),
    ensures
        !respects_order(plan),
    decreases steps.len(),
{
    to_multiset_len(steps);
    to_multiset_len(plan);
    if respects_order(plan) {
        if exists|i: int| is_first_ready(steps, i) {
            let i = choose|i: int| is_first_ready(steps, i);
            let rest = steps.remove(i);
            to_multiset_contains(steps, steps[i]);
            to_multiset_contains(plan, steps[i]);
            assert(steps.contains(steps[i]));
            let k = choose|k: int| 0 <= k < plan.len() && plan[k] == steps[i];
            to_multiset_remove(steps, i);
            to_multiset_remove(plan, k);
            lemma_remove_respects(plan, k);
            law_failure_means_no_order(rest, plan.remove(k));
        } else {
            let first = plan[0];
            assert(plan.contains(first));
            to_multiset_contains(plan, first);
            to_multiset_contains(steps, first);
            let i = choose|i: int| 0 <= i < steps.len() && steps[i] == first;
            if ready(steps, i) {
                lemma_ready_has_first(steps, i);
            }
            let j = choose|j: int| 0 <= j < steps.len() && must_precede(steps[j], steps[i]);
            assert(steps.contains(steps[j]));
            to_multiset_contains(steps, steps[j]);
            to_multiset_contains(plan, steps[j]);
            let k = choose|k: int| 0 <= k < plan.len() && plan[k] == steps[j];
            assert(must_precede(plan[k], plan[0]));
        }
    }
}

/// Steps that already respect the order come out as they went in: steps
/// that do not depend on each other keep their relative order.
pub proof fn law_ordered_steps_stay(steps: Seq<StepView>)
    requires
        respects_order(steps),
    ensures
        stable_order(steps) == Ok::<Seq<StepView>, Seq<StepView>>(steps),
    decreases steps.len(),
{
    if steps.len() == 0 {
        assert(steps =~= Seq::<StepView>::empty());
    } else {
        assert(ready(steps, 0)) by {
            assert forall|j: int| 0 <= j < steps.len() implies !must_precede(
                #[trigger] steps[j],
                steps[0],
            ) by {
                if must_precede(steps[j], steps[0]) {
                    assert(j < 0);
                }
            }
        }
        assert(is_first_ready(steps, 0));
        lemma_first_ready_unique(steps, 0);
        lemma_remove_respects(steps, 0);
        law_ordered_steps_stay(steps.remove(0));
        assert(seq![steps[0]] + steps.remove(0) =~= steps);
    }
}

/// In a plan that respects the order, a foreign key of a table is dropped
/// before the table is, and a table is created before a foreign key that
/// points at it.
pub proof fn law_keys_and_tables_in_order(plan: Seq<StepView>, i: int, j: int)
    requires
        respects_order(plan),
        0 <= i < plan.len(),
        0 <= j < plan.len(),
    ensures
        (plan[i] matches StepView::DropForeignKey { table, foreign_key } && plan[j]
            matches StepView::DropTable { name } && (table == name
            || foreign_key.referenced_table == name)) ==> i < j,
        (plan[i] matches StepView::CreateTable { table: made } && plan[j]
            matches StepView::CreateForeignKey { foreign_key, .. } && foreign_key.referenced_table
            == made.name) ==> i < j,
{
    if plan[i] matches StepView::DropForeignKey { table, foreign_key } && plan[j]
        matches StepView::DropTable { name } && (table == name || foreign_key.referenced_table
        == name) {
        assert(must_precede(plan[i], plan[j]));
    }
    if plan[i] matches StepView::CreateTable { table: made } && plan[j]
        matches StepView::CreateForeignKey { foreign_key, .. } && foreign_key.referenced_table
        == made.name {
        assert(must_precede(plan[i], plan[j]));
    }
}

/// Ordering a plan that is ordered changes nothing.
pub proof fn law_ordering_twice_is_ordering_once(steps: Seq<StepView>)
    ensures
        stable_order(steps) matches Ok(plan) ==> stable_order(plan) == Ok::<
            Seq<StepView>,
            Seq<StepView>,
        >(plan),
{
    law_order_is_respected(steps);
    match stable_order(steps) {
        Ok(plan) => {
            law_ordered_steps_stay(plan);
        },
        Err(left) => {},
    }
}

} // verus!
