//! From a data model and the schema of a database to a plan.
//!
//! The data model is checked and projected, the result and the present
//! schema are brought into the dialect's form, their difference is fitted
//! to the dialect and put in order. Steps that lose data are named in
//! warnings, and a plan with warnings is only released when forced. The
//! warnings are taken from the difference as it is found, so a table that
//! is made anew warns of the columns it loses and of nothing else.

use vstd::prelude::*;
use crate::datamodel::{Datamodel, DatamodelView};
use crate::datamodel_apply::{StepError, StepErrorView};
use crate::dialect::{
    DialectPolicy, normalize_schema, normalized_schema, specialized_schema,
};
use crate::orderer::{order_steps, respects_order, stable_order};
use crate::projector::{project, projected};
use crate::rewriter::rewritten;
use crate::schema::{SchemaView, SqlSchema};
use crate::schema_differ::{diff_schemas, schema_diff};
use crate::steps::{SqlMigrationStep, StepView, TableChange, TableChangeView};
use crate::validation::{DatamodelError, DatamodelErrorView, validate, validation_errors};

verus! {

/// A step of a plan that loses data.
#[derive(Debug, PartialEq, Eq)]
pub enum MigrationWarning {
    TableDropped { table: String },
    ColumnDropped { table: String, column: String },
}

/// The view of `MigrationWarning` that contracts speak of.
pub enum WarningView {
    TableDropped { table: Seq<char> },
    ColumnDropped { table: Seq<char>, column: Seq<char> },
}

impl DeepView for MigrationWarning {
    type V = WarningView;

    open spec fn deep_view(&self) -> WarningView {
        match self {
            MigrationWarning::TableDropped { table } => WarningView::TableDropped {
                table: table@,
            },
            MigrationWarning::ColumnDropped { table, column } => WarningView::ColumnDropped {
                table: table@,
                column: column@,
            },
        }
    }
}

/// The steps of a plan in the order to run them, and what they lose.
#[derive(Debug, PartialEq, Eq)]
pub struct MigrationPlan {
    pub steps: Vec<SqlMigrationStep>,
    pub warnings: Vec<MigrationWarning>,
}

/// The view of `MigrationPlan` that contracts speak of.
pub struct PlanView {
    pub steps: Seq<StepView>,
    pub warnings: Seq<WarningView>,
}

impl DeepView for MigrationPlan {
    type V = PlanView;

    open spec fn deep_view(&self) -> PlanView {
        PlanView { steps: self.steps.deep_view(), warnings: self.warnings.deep_view() }
    }
}

/// Why there is no plan.
#[derive(Debug, PartialEq, Eq)]
pub enum PlanError {
    /// the data model is not valid
    InvalidDatamodel { errors: Vec<DatamodelError> },
    /// a step of the history does not fit the data model it meets
    InvalidStep { error: StepError },
    /// the steps cannot be put in order: each of those given waits for another
    UnsupportedMigration { steps: Vec<SqlMigrationStep> },
    /// the plan loses data and was not forced
    DestructiveChanges { warnings: Vec<MigrationWarning> },
}

/// The view of `PlanError` that contracts speak of.
pub enum PlanErrorView {
    InvalidDatamodel { errors: Seq<DatamodelErrorView> },
    InvalidStep { error: StepErrorView },
    UnsupportedMigration { steps: Seq<StepView> },
    DestructiveChanges { warnings: Seq<WarningView> },
}

impl DeepView for PlanError {
    type V = PlanErrorView;

    open spec fn deep_view(&self) -> PlanErrorView {
        match self {
            PlanError::InvalidDatamodel { errors } => PlanErrorView::InvalidDatamodel {
                errors: errors.deep_view(),
            },
            PlanError::InvalidStep { error } => PlanErrorView::InvalidStep {
                error: error.deep_view(),
            },
            PlanError::UnsupportedMigration { steps } => PlanErrorView::UnsupportedMigration {
                steps: steps.deep_view(),
            },
            PlanError::DestructiveChanges { warnings } => PlanErrorView::DestructiveChanges {
                warnings: warnings.deep_view(),
            },
        }
    }
}

/// The warning for a change to a table, if the change drops a column.
pub open spec fn change_warning(table: Seq<char>) -> spec_fn(TableChangeView) -> Option<
    WarningView,
> {
    |c: TableChangeView|
        match c {
            TableChangeView::DropColumn { name } => Some(
                WarningView::ColumnDropped { table: table, column: name },
            ),
            _ => None,
        }
}

/// The warnings for one step: one for a dropped table, one for each column
/// that an altered table loses.
pub open spec fn step_warnings() -> spec_fn(StepView) -> Seq<WarningView> {
    |s: StepView|
        match s {
            StepView::DropTable { name } => seq![WarningView::TableDropped { table: name }],
            StepView::AlterTable { table, changes } => changes.filter_map(change_warning(table)),
            _ => Seq::empty(),
        }
}

/// What the steps of a comparison lose, in the order of the steps.
pub open spec fn warnings_of(steps: Seq<StepView>) -> Seq<WarningView> {
    steps.flat_map(step_warnings())
}

/// The wanted schema in the dialect's form.
pub open spec fn prepared(policy: DialectPolicy, desired: SchemaView) -> SchemaView {
    normalized_schema(specialized_schema(policy.auto_increment, desired))
}

/// The steps between the wanted and the present schema, as compared.
pub open spec fn compared(policy: DialectPolicy, desired: SchemaView, actual: SchemaView) -> Seq<
    StepView,
> {
    schema_diff(prepared(policy, desired), normalized_schema(actual))
}

/// The plan that leads from the present schema to the wanted one, or the
/// steps that cannot be ordered.
pub open spec fn planned(policy: DialectPolicy, desired: SchemaView, actual: SchemaView) -> Result<
    PlanView,
    PlanErrorView,
> {
    let raw = compared(policy, desired, actual);
    match stable_order(
        rewritten(policy, raw, prepared(policy, desired), normalized_schema(actual)),
    ) {
        Ok(steps) => Ok(PlanView { steps: steps, warnings: warnings_of(raw) }),
        Err(left) => Err(PlanErrorView::UnsupportedMigration { steps: left }),
    }
}

/// The plan that leads from the present schema to what a data model asks
/// for. A data model that is not valid gives its errors and no plan.
pub open spec fn planned_for_model(policy: DialectPolicy, dm: DatamodelView, actual: SchemaView)
    -> Result<PlanView, PlanErrorView> {
    let errors = validation_errors(dm, policy.scalar_lists);
    if errors.len() > 0 {
        Err(PlanErrorView::InvalidDatamodel { errors: errors })
    } else {
        planned(policy, projected(dm), actual)
    }
}

/// The steps of a plan as released: all of them where the plan loses no
/// data or is forced, none otherwise.
pub open spec fn released(plan: PlanView, force: bool) -> Result<Seq<StepView>, PlanErrorView> {
    if plan.warnings.len() > 0 && !force {
        Err(PlanErrorView::DestructiveChanges { warnings: plan.warnings })
    } else {
        Ok(plan.steps)
    }
}

/// The warnings for the changes to one table.
pub fn warnings_of_changes(table: &String, changes: &Vec<TableChange>) -> (res: Vec<
    MigrationWarning,
>)
    ensures
        res.deep_view() == changes.deep_view().filter_map(change_warning(table@)),
{
    let ghost src = changes.deep_view();
    let ghost f = change_warning(table@);
    let mut out: Vec<MigrationWarning> = Vec::new();
    let mut i: usize = 0;
    while i < changes.len()
        invariant
            0 <= i <= changes.len(),
            src == changes.deep_view(),
            f == change_warning(table@),
            out.deep_view() == src.take(i as int).filter_map(f),
        decreases changes.len() - i,
    {
        let ghost before = out.deep_view();
        proof {
            src.lemma_filter_map_take_succ(f, i as int);
        }
        match &changes[i] {
            TableChange::DropColumn(c) => {
                out.push(
                    MigrationWarning::ColumnDropped {
                        table: table.clone(),
                        column: c.name.clone(),
                    },
                );
                assert(out.deep_view() =~= before.push(
                    WarningView::ColumnDropped { table: table@, column: c.name@ },
                ));
            },
            _ => {},
        }
        i += 1;
    }
    assert(src.take(changes.len() as int) =~= src);
    out
}

/// What the steps of a comparison lose.
pub fn destructive_changes(steps: &Vec<SqlMigrationStep>) -> (res: Vec<MigrationWarning>)
    ensures
        res.deep_view() == warnings_of(steps.deep_view()),
{
    let ghost src = steps.deep_view();
    let ghost f = step_warnings();
    let mut out: Vec<MigrationWarning> = Vec::new();
    let mut i: usize = 0;
    while i < steps.len()
        invariant
            0 <= i <= steps.len(),
            src == steps.deep_view(),
            f == step_warnings(),
            out.deep_view() == src.take(i as int).flat_map(f),
        decreases steps.len() - i,
    {
        let ghost before = out.deep_view();
        proof {
            src.lemma_flat_map_take_append(f, i as int);
        }
        match &steps[i] {
            SqlMigrationStep::DropTable(s) => {
                out.push(MigrationWarning::TableDropped { table: s.name.clone() });
                assert(out.deep_view() =~= before + seq![
                    WarningView::TableDropped { table: s.name@ },
                ]);
            },
            SqlMigrationStep::AlterTable(s) => {
                let mut more = warnings_of_changes(&s.table, &s.changes);
                let ghost added = more.deep_view();
                out.append(&mut more);
                assert(out.deep_view() =~= before + added);
            },
            _ => {
                assert(before + Seq::<WarningView>::empty() =~= before);
            },
        }
        i += 1;
    }
    assert(src.take(steps.len() as int) =~= src);
    out
}

/// Plans the steps that lead from the present schema to the wanted one.
pub fn plan_schema_migration(policy: &DialectPolicy, desired: &SqlSchema, actual: &SqlSchema) -> (res:
    Result<MigrationPlan, PlanError>)
    ensures
        match res {
            Ok(plan) => planned(*policy, desired.deep_view(), actual.deep_view()) == Ok::<
                PlanView,
                PlanErrorView,
            >(plan.deep_view()),
            Err(e) => planned(*policy, desired.deep_view(), actual.deep_view()) == Err::<
                PlanView,
                PlanErrorView,
            >(e.deep_view()),
        },
        res matches Ok(plan) ==> respects_order(plan.deep_view().steps),
{
    let specialized = policy.specialize_schema(desired);
    let wanted = normalize_schema(&specialized);
    let present = normalize_schema(actual);
    let raw = diff_schemas(&wanted, &present);
    let warnings = destructive_changes(&raw);
    let fitted = policy.rewrite_steps(&raw, &wanted, &present);
    match order_steps(fitted) {
        Ok(steps) => Ok(MigrationPlan { steps, warnings }),
        Err(e) => Err(PlanError::UnsupportedMigration { steps: e.steps }),
    }
}

/// Plans the steps that lead from the present schema to what a data model
/// asks for.
pub fn plan_migration(policy: &DialectPolicy, dm: &Datamodel, actual: &SqlSchema) -> (res: Result<
    MigrationPlan,
    PlanError,
>)
    ensures
        match res {
            Ok(plan) => planned_for_model(*policy, dm.deep_view(), actual.deep_view()) == Ok::<
                PlanView,
                PlanErrorView,
            >(plan.deep_view()),
            Err(e) => planned_for_model(*policy, dm.deep_view(), actual.deep_view()) == Err::<
                PlanView,
                PlanErrorView,
            >(e.deep_view()),
        },
        res matches Ok(plan) ==> respects_order(plan.deep_view().steps),
{
    let errors = validate(dm, policy.scalar_lists);
    if errors.len() > 0 {
        return Err(PlanError::InvalidDatamodel { errors });
    }
    let desired = project(dm);
    plan_schema_migration(policy, &desired, actual)
}

/// Releases the steps of a plan: all of them where the plan loses no data
/// or is forced; otherwise the warnings come back as an error and no step
/// is released.
pub fn release(plan: MigrationPlan, force: bool) -> (res: Result<Vec<SqlMigrationStep>, PlanError>)
    ensures
        match res {
            Ok(steps) => released(plan.deep_view(), force) == Ok::<Seq<StepView>, PlanErrorView>(
                steps.deep_view(),
            ),
            Err(e) => released(plan.deep_view(), force) == Err::<Seq<StepView>, PlanErrorView>(
                e.deep_view(),
            ),
        },
{
    if plan.warnings.len() > 0 && !force {
        Err(PlanError::DestructiveChanges { warnings: plan.warnings })
    } else {
        Ok(plan.steps)
    }
}

} // verus!
