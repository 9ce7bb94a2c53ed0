//! Putting the steps of a plan into an order that is safe to run.
//!
//! Some steps have to run before others: a foreign key is dropped before the
//! table it belongs to or points at, a table is created before anything that
//! refers to it. The steps are taken one at a time, always the first that no
//! step still waiting has to precede, so steps that do not depend on each
//! other keep their relative order.

use vstd::prelude::*;
use crate::schema::{ForeignKeyView, Table};
use crate::order_laws::{
    law_left_steps_block_each_other, law_order_is_respected, law_order_keeps_steps,
};
use crate::steps::{SqlMigrationStep, StepView};

verus! {

/// Whether one of the foreign keys points at the table of that name.
pub open spec fn keys_reference(keys: Seq<ForeignKeyView>, name: Seq<char>) -> bool {
    exists|j: int| 0 <= j < keys.len() && (#[trigger] keys[j]).referenced_table == name
}

/// Whether step `a` has to run before step `b`.
pub open spec fn must_precede(a: StepView, b: StepView) -> bool {
    match (a, b) {
        (StepView::DropForeignKey { table, foreign_key }, StepView::DropTable { name }) => table
            == name || foreign_key.referenced_table == name,
        (StepView::DropIndex { table, .. }, StepView::DropTable { name }) => table == name,
        (StepView::CopyRows { from, .. }, StepView::DropTable { name }) => from == name,
        (
            StepView::CreateTable { table: made },
            StepView::CreateForeignKey { table, foreign_key },
        ) => table == made.name || foreign_key.referenced_table == made.name,
        (StepView::CreateTable { table: made }, StepView::CreateTable { table: other }) =>
            other.name != made.name && keys_reference(other.foreign_keys, made.name),
        (StepView::CreateTable { table: made }, StepView::CreateIndex { table, .. }) => table
            == made.name,
        (StepView::CreateTable { table: made }, StepView::CopyRows { to, .. }) => to == made.name,
        (StepView::DropTable { name }, StepView::RenameTable { new_name, .. }) => new_name
            == name,
        (StepView::RenameTable { new_name, .. }, StepView::CreateIndex { table, .. }) => table
            == new_name,
        (StepView::RenameTable { new_name, .. }, StepView::CreateForeignKey { table, .. }) =>
            table == new_name,
        _ => false,
    }
}

/// Every step stands before each step that it has to precede.
pub open spec fn respects_order(plan: Seq<StepView>) -> bool {
    forall|i: int, j: int|
        0 <= i < plan.len() && 0 <= j < plan.len() && must_precede(plan[i], plan[j]) ==> i < j
}

/// No step of the list has to precede the step at `i`.
pub open spec fn ready(steps: Seq<StepView>, i: int) -> bool {
    forall|j: int| 0 <= j < steps.len() ==> !must_precede(#[trigger] steps[j], steps[i])
}

/// The step at `i` is the first of the list that is ready.
pub open spec fn is_first_ready(steps: Seq<StepView>, i: int) -> bool {
    &&& 0 <= i < steps.len()
    &&& ready(steps, i)
    &&& forall|k: int| 0 <= k < i ==> !ready(steps, k)
}

/// The steps in the order in which they are taken, each time the first that
/// is ready among those left. Where steps are left and none of them is
/// ready, the steps left are the error.
pub open spec fn stable_order(steps: Seq<StepView>) -> Result<Seq<StepView>, Seq<StepView>>
    decreases steps.len(),
{
    if steps.len() == 0 {
        Ok(Seq::empty())
    } else if exists|i: int| is_first_ready(steps, i) {
        let i = choose|i: int| is_first_ready(steps, i);
        match stable_order(steps.remove(i)) {
            Ok(tail) => Ok(seq![steps[i]] + tail),
            Err(left) => Err(left),
        }
    } else {
        Err(steps)
    }
}

/// Whether a table has a foreign key that points at the table of that name.
pub fn table_references(table: &Table, name: &String) -> (res: bool)
    ensures
        res == keys_reference(table.deep_view().foreign_keys, name@),
{
    let ghost keys = table.deep_view().foreign_keys;
    let mut i: usize = 0;
    while i < table.foreign_keys.len()
        invariant
            0 <= i <= table.foreign_keys.len(),
            keys == table.deep_view().foreign_keys,
            forall|j: int| 0 <= j < i ==> (#[trigger] keys[j]).referenced_table != name@,
        decreases table.foreign_keys.len() - i,
    {
        if table.foreign_keys[i].referenced_table == *name {
            assert(keys[i as int].referenced_table == name@);
            return true;
        }
        assert(keys[i as int].referenced_table != name@);
        i += 1;
    }
    false
}

/// Whether step `a` has to run before step `b`.
pub fn step_must_precede(a: &SqlMigrationStep, b: &SqlMigrationStep) -> (res: bool)
    ensures
        res == must_precede(a.deep_view(), b.deep_view()),
{
    match (a, b) {
        (SqlMigrationStep::DropForeignKey(x), SqlMigrationStep::DropTable(y)) => x.table
            == y.name || x.foreign_key.referenced_table == y.name,
        (SqlMigrationStep::DropIndex(x), SqlMigrationStep::DropTable(y)) => x.table == y.name,
        (SqlMigrationStep::CopyRows(x), SqlMigrationStep::DropTable(y)) => x.from == y.name,
        (SqlMigrationStep::CreateTable(x), SqlMigrationStep::CreateForeignKey(y)) => y.table
            == x.table.name || y.foreign_key.referenced_table == x.table.name,
        (SqlMigrationStep::CreateTable(x), SqlMigrationStep::CreateTable(y)) => y.table.name
            != x.table.name && table_references(&y.table, &x.table.name),
        (SqlMigrationStep::CreateTable(x), SqlMigrationStep::CreateIndex(y)) => y.table
            == x.table.name,
        (SqlMigrationStep::CreateTable(x), SqlMigrationStep::CopyRows(y)) => y.to
            == x.table.name,
        (SqlMigrationStep::DropTable(x), SqlMigrationStep::RenameTable(y)) => y.new_name
            == x.name,
        (SqlMigrationStep::RenameTable(x), SqlMigrationStep::CreateIndex(y)) => y.table
            == x.new_name,
        (SqlMigrationStep::RenameTable(x), SqlMigrationStep::CreateForeignKey(y)) => y.table
            == x.new_name,
        _ => false,
    }
}

/// Whether no step of the list has to precede the step at `i`.
pub fn step_is_ready(steps: &Vec<SqlMigrationStep>, i: usize) -> (res: bool)
    requires
        i < steps.len(),
    ensures
        res == ready(steps.deep_view(), i as int),
{
    let ghost all = steps.deep_view();
    let mut j: usize = 0;
    while j < steps.len()
        invariant
            0 <= j <= steps.len(),
            i < steps.len(),
            all == steps.deep_view(),
            forall|k: int| 0 <= k < j ==> !must_precede(#[trigger] all[k], all[i as int]),
        decreases steps.len() - j,
    {
        if step_must_precede(&steps[j], &steps[i]) {
            assert(must_precede(all[j as int], all[i as int]));
            return false;
        }
        j += 1;
    }
    true
}

/// The place of the first step that is ready, if any step is.
pub fn first_ready(steps: &Vec<SqlMigrationStep>) -> (res: Option<usize>)
    ensures
        match res {
            Some(i) => is_first_ready(steps.deep_view(), i as int),
            None => forall|i: int| !is_first_ready(steps.deep_view(), i),
        },
{
    let mut i: usize = 0;
    while i < steps.len()
        invariant
            0 <= i <= steps.len(),
            forall|k: int| 0 <= k < i ==> !ready(steps.deep_view(), k),
        decreases steps.len() - i,
    {
        if step_is_ready(steps, i) {
            return Some(i);
        }
        i += 1;
    }
    None
}

/// Steps that could not be ordered: among them each has to wait for another.
#[derive(Debug, PartialEq, Eq)]
pub struct UnorderableSteps {
    pub steps: Vec<SqlMigrationStep>,
}

/// Orders the steps of a plan. Fails with the steps that are left when each
/// of them has to wait for another one of them.
pub fn order_steps(steps: Vec<SqlMigrationStep>) -> (res: Result<
    Vec<SqlMigrationStep>,
    UnorderableSteps,
>)
    ensures
        match res {
            Ok(plan) => stable_order(steps.deep_view()) == Ok::<Seq<StepView>, Seq<StepView>>(
                plan.deep_view(),
            ),
            Err(e) => stable_order(steps.deep_view()) == Err::<Seq<StepView>, Seq<StepView>>(
                e.steps.deep_view(),
            ),
        },
        res matches Ok(plan) ==> respects_order(plan.deep_view())
            && plan.deep_view().to_multiset() == steps.deep_view().to_multiset(),
        res matches Err(e) ==> e.steps.len() > 0,
{
    let ghost all = steps.deep_view();
    proof {
        law_order_keeps_steps(all);
        law_order_is_respected(all);
        law_left_steps_block_each_other(all);
    }
    let mut left = steps;
    let mut out: Vec<SqlMigrationStep> = Vec::new();
    while left.len() > 0
        invariant
            all == steps.deep_view(),
            stable_order(all) == match stable_order(left.deep_view()) {
                Ok(tail) => Ok::<Seq<StepView>, Seq<StepView>>(out.deep_view() + tail),
                Err(rest) => Err(rest),
            },
        decreases left.len(),
    {
        let ghost before = left.deep_view();
        let ghost placed = out.deep_view();
        match first_ready(&left) {
            Some(i) => {
                proof {
                    lemma_first_ready_unique(before, i as int);
                }
                let step = left.remove(i);
                assert(left.deep_view() =~= before.remove(i as int));
                out.push(step);
                assert(out.deep_view() =~= placed.push(before[i as int]));
                proof {
                    match stable_order(left.deep_view()) {
                        Ok(tail) => {
                            assert(placed + (seq![before[i as int]] + tail) =~= out.deep_view()
                                + tail);
                        },
                        Err(rest) => {},
                    }
                }
            },
            None => {
                assert(before.len() > 0);
                assert(!exists|k: int| is_first_ready(before, k));
                assert(stable_order(before) == Err::<Seq<StepView>, Seq<StepView>>(before));
                return Err(UnorderableSteps { steps: left });
            },
        }
    }
    assert(out.deep_view() + Seq::<StepView>::empty() =~= out.deep_view());
    Ok(out)
}

/// There is at most one first ready step, so `choose` picks it.
pub proof fn lemma_first_ready_unique(steps: Seq<StepView>, i: int)
    requires
        is_first_ready(steps, i),
    ensures
        (choose|k: int| is_first_ready(steps, k)) == i,
{
    let k = choose|k: int| is_first_ready(steps, k);
    assert(is_first_ready(steps, k));
    if k < i {
        assert(!ready(steps, k));
    }
    if i < k {
        assert(!ready(steps, i));
    }
}

} // verus!
