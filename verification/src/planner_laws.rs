//! What holds of every plan.

use vstd::prelude::*;
use crate::dialect::{
    AutoIncrement, DialectPolicy, normalized_schema, normalized_table, specialized_schema,
    specialized_table,
};
use crate::datamodel::DatamodelView;
use crate::planner::{
    PlanErrorView, PlanView, WarningView, change_warning, compared, planned, planned_for_model,
    prepared, released, step_warnings, warnings_of,
};
use crate::projector::projected;
use crate::validation::validation_errors;
use crate::rewriter::{piece, rewritten, substituted};
use crate::schema::{SchemaView, column_names, table_names};
use crate::schema_differ::{altered_table, column_changes, key_matches, schema_diff};
use crate::schema_laws::{
    law_agreeing_schemas_need_no_steps, law_missing_column_is_dropped, schemas_agree,
    tables_agree,
};
use crate::seqs::{lemma_filter_map_holds, lemma_flat_map_holds, lemma_flat_map_nothing};
use crate::steps::{StepView, TableChangeView};

verus! {

/// A schema with its default values unquoted is as well formed as it was.
pub proof fn lemma_normalized_wf(schema: SchemaView)
    requires
        schema.wf(),
    ensures
        normalized_schema(schema).wf(),
{
    let out = normalized_schema(schema);
    assert(table_names(out.tables) =~= table_names(schema.tables));
    assert forall|i: int| 0 <= i < out.tables.len() implies (#[trigger] out.tables[i]).wf() by {
        let t = schema.tables[i];
        assert(t.wf());
        assert(out.tables[i] == normalized_table(t));
        assert(column_names(out.tables[i].columns) =~= column_names(t.columns));
    }
}

/// A schema in the dialect's form is as well formed as it was.
pub proof fn lemma_specialized_wf(strategy: AutoIncrement, schema: SchemaView)
    requires
        schema.wf(),
    ensures
        specialized_schema(strategy, schema).wf(),
{
    let out = specialized_schema(strategy, schema);
    assert(table_names(out.tables) =~= table_names(schema.tables));
    assert forall|i: int| 0 <= i < out.tables.len() implies (#[trigger] out.tables[i]).wf() by {
        let t = schema.tables[i];
        assert(t.wf());
        assert(out.tables[i] == specialized_table(strategy, t));
        assert(column_names(out.tables[i].columns) =~= column_names(t.columns));
    }
}

/// No steps are rewritten to no steps.
pub proof fn lemma_nothing_to_rewrite(policy: DialectPolicy, desired: SchemaView, actual: SchemaView)
    ensures
        rewritten(policy, Seq::<StepView>::empty(), desired, actual) == Seq::<StepView>::empty(),
{
    let none = Seq::<StepView>::empty();
    let pieces = Seq::new(none.len(), |k: int| piece(none, desired, actual, k));
    assert(pieces.len() == 0);
    assert(substituted(none, desired, actual) =~= none);
    assert(rewritten(policy, none, desired, actual) =~= none);
}

/// Planning against a database that already has the wanted structure gives
/// no step and no warning. Both schemas are compared in the dialect's form
/// and with their default values unquoted, so a default that is written in
/// another way, or a foreign key constraint under another name, does not
/// count as a difference.
pub proof fn law_agreeing_database_needs_no_plan(
    policy: DialectPolicy,
    desired: SchemaView,
    actual: SchemaView,
)
    requires
        desired.wf(),
        actual.wf(),
        schemas_agree(prepared(policy, desired), normalized_schema(actual)),
    ensures
        planned(policy, desired, actual) == Ok::<PlanView, PlanErrorView>(
            PlanView { steps: Seq::empty(), warnings: Seq::empty() },
        ),
{
    lemma_specialized_wf(policy.auto_increment, desired);
    lemma_normalized_wf(specialized_schema(policy.auto_increment, desired));
    lemma_normalized_wf(actual);
    law_agreeing_schemas_need_no_steps(prepared(policy, desired), normalized_schema(actual));
    lemma_nothing_to_rewrite(policy, prepared(policy, desired), normalized_schema(actual));
    lemma_flat_map_nothing(Seq::<StepView>::empty(), step_warnings());
}

/// Planning against the schema that the wanted schema itself becomes in the
/// dialect gives no step and no warning.
pub proof fn law_own_schema_needs_no_plan(policy: DialectPolicy, desired: SchemaView)
    requires
        desired.wf(),
    ensures
        planned(policy, desired, specialized_schema(policy.auto_increment, desired)) == Ok::<
            PlanView,
            PlanErrorView,
        >(PlanView { steps: Seq::empty(), warnings: Seq::empty() }),
{
    let actual = specialized_schema(policy.auto_increment, desired);
    let both = prepared(policy, desired);
    lemma_specialized_wf(policy.auto_increment, desired);
    assert forall|i: int| 0 <= i < both.tables.len() implies tables_agree(
        #[trigger] both.tables[i],
        both.tables[i],
    ) by {
        let keys = both.tables[i].foreign_keys;
        assert forall|j: int| 0 <= j < keys.len() implies key_matches(
            #[trigger] keys[j],
            keys[j],
        ) by {}
    }
    law_agreeing_database_needs_no_plan(policy, desired, actual);
}

/// A plan with warnings is released only when forced; a plan without
/// warnings is released either way, and so is every forced plan. Where a
/// plan is refused, none of its steps is released.
pub proof fn law_drops_need_force(plan: PlanView)
    ensures
        plan.warnings.len() > 0 ==> released(plan, false) == Err::<Seq<StepView>, PlanErrorView>(
            PlanErrorView::DestructiveChanges { warnings: plan.warnings },
        ),
        plan.warnings.len() == 0 ==> released(plan, false) == Ok::<Seq<StepView>, PlanErrorView>(
            plan.steps,
        ),
        released(plan, true) == Ok::<Seq<StepView>, PlanErrorView>(plan.steps),
{
}

/// Every dropped table has its warning.
pub proof fn law_dropped_table_is_warned_of(steps: Seq<StepView>, i: int)
    requires
        0 <= i < steps.len(),
        steps[i] is DropTable,
    ensures
        warnings_of(steps).contains(
            WarningView::TableDropped { table: steps[i]->DropTable_name },
        ),
{
    let w = WarningView::TableDropped { table: steps[i]->DropTable_name };
    let own = step_warnings()(steps[i]);
    assert(own[0] == w);
    lemma_flat_map_holds(steps, step_warnings(), i, w);
}

/// Every column that an altered table loses has its warning.
pub proof fn law_dropped_column_is_warned_of(steps: Seq<StepView>, i: int, j: int)
    requires
        0 <= i < steps.len(),
        steps[i] matches StepView::AlterTable { changes, .. } && 0 <= j < changes.len()
            && changes[j] is DropColumn,
    ensures
        steps[i] matches StepView::AlterTable { table, changes } && warnings_of(steps).contains(
            WarningView::ColumnDropped { table: table, column: changes[j]->DropColumn_name },
        ),
{
    match steps[i] {
        StepView::AlterTable { table, changes } => {
            let w = WarningView::ColumnDropped {
                table: table,
                column: changes[j]->DropColumn_name,
            };
            lemma_filter_map_holds(changes, change_warning(table), j);
            assert(step_warnings()(steps[i]).contains(w));
            lemma_flat_map_holds(steps, step_warnings(), i, w);
        },
        _ => {},
    }
}

/// Taking a column away is a change that has to be forced: where a table on
/// both sides has a column that is no longer wanted, the plan warns of the
/// lost column, and without force none of its steps is released.
pub proof fn law_lost_column_needs_force(
    policy: DialectPolicy,
    desired: SchemaView,
    actual: SchemaView,
    i: int,
    k: int,
)
    requires
        0 <= i < prepared(policy, desired).tables.len(),
        normalized_schema(actual).table(prepared(policy, desired).tables[i].name) is Some,
        0 <= k < normalized_schema(actual).table(
            prepared(policy, desired).tables[i].name,
        )->0.columns.len(),
        !prepared(policy, desired).tables[i].has_column(
            normalized_schema(actual).table(
                prepared(policy, desired).tables[i].name,
            )->0.columns[k].name,
        ),
    ensures
        planned(policy, desired, actual) matches Ok(plan) ==> plan.warnings.contains(
            WarningView::ColumnDropped {
                table: prepared(policy, desired).tables[i].name,
                column: normalized_schema(actual).table(
                    prepared(policy, desired).tables[i].name,
                )->0.columns[k].name,
            },
        ) && released(plan, false) is Err,
{
    let wanted = prepared(policy, desired);
    let present = normalized_schema(actual);
    let d = wanted.tables[i];
    let a = present.table(d.name)->0;
    let lost = a.columns[k].name;
    law_missing_column_is_dropped(d, a, k);
    let changes = column_changes(d, a);
    let change = TableChangeView::DropColumn { name: lost };
    let j = choose|j: int| 0 <= j < changes.len() && changes[j] == change;
    let step = StepView::AlterTable { table: d.name, changes: changes };
    assert(altered_table(present)(d) == Some(step));
    lemma_filter_map_holds(wanted.tables, altered_table(present), i);
    let altered = wanted.tables.filter_map(altered_table(present));
    let at = choose|at: int| 0 <= at < altered.len() && altered[at] == step;
    let raw = schema_diff(wanted, present);
    let before = present.tables.flat_map(crate::schema_differ::key_drops(wanted))
        + present.tables.flat_map(crate::schema_differ::index_drops(wanted))
        + present.tables.filter_map(crate::schema_differ::dropped_table(wanted))
        + wanted.tables.filter_map(crate::schema_differ::created_table(present));
    assert(raw[before.len() + at] == step);
    law_dropped_column_is_warned_of(raw, before.len() + at, j);
    let w = WarningView::ColumnDropped { table: d.name, column: lost };
    assert(warnings_of(raw).contains(w));
    assert(warnings_of(raw).len() > 0);
}

/// Planning against a database that already holds what a data model asks
/// for gives no step and no warning, for every valid data model whose
/// tables, columns and indices are named apart.
pub proof fn law_applied_model_needs_no_plan(policy: DialectPolicy, dm: DatamodelView)
    requires
        validation_errors(dm, policy.scalar_lists).len() == 0,
        projected(dm).wf(),
    ensures
        planned_for_model(
            policy,
            dm,
            specialized_schema(policy.auto_increment, projected(dm)),
        ) == Ok::<PlanView, PlanErrorView>(
            PlanView { steps: Seq::empty(), warnings: Seq::empty() },
        ),
{
    law_own_schema_needs_no_plan(policy, projected(dm));
}

} // verus!
