//! The three requests of a migration: infer the steps between two data
//! models, calculate the database steps for steps of a data model, and
//! apply a migration.

use vstd::prelude::*;
use crate::datamodel::{Datamodel, DatamodelView, EnumView, ModelView, TypeAliasView};
use crate::datamodel_apply::{applied, apply_steps};
use crate::datamodel_differ::{datamodel_diff, diff_datamodels};
use crate::datamodel_steps::{MigrationStep, MigrationStepView};
use crate::dialect::{DialectPolicy, specialized_schema};
use crate::orderer::respects_order;
use crate::planner::{
    MigrationPlan, PlanError, PlanErrorView, PlanView, plan_migration, planned_for_model, release,
    released,
};
use crate::projector::{project, projected};
use crate::schema::{SchemaView, SqlSchema};
use crate::steps::{SqlMigrationStep, StepView};

verus! {

/// The data model that holds nothing.
pub open spec fn empty_datamodel() -> DatamodelView {
    DatamodelView {
        models: Seq::<ModelView>::empty(),
        enums: Seq::<EnumView>::empty(),
        type_aliases: Seq::<TypeAliasView>::empty(),
    }
}

/// The steps from a data model, with the steps that are assumed to be
/// applied to it, to the next data model.
pub open spec fn inferred(
    current: DatamodelView,
    assume_to_be_applied: Seq<MigrationStepView>,
    next: DatamodelView,
) -> Result<Seq<MigrationStepView>, PlanErrorView> {
    match applied(current, assume_to_be_applied) {
        Ok(base) => Ok(datamodel_diff(base, next)),
        Err(error) => Err(PlanErrorView::InvalidStep { error: error }),
    }
}

/// The plan for steps of a data model: the steps assumed to be applied give
/// the data model that the database is taken to hold, the steps to apply
/// give the one that is wanted.
pub open spec fn calculated(
    policy: DialectPolicy,
    assume_to_be_applied: Seq<MigrationStepView>,
    steps_to_apply: Seq<MigrationStepView>,
) -> Result<PlanView, PlanErrorView> {
    match applied(empty_datamodel(), assume_to_be_applied) {
        Ok(base) => match applied(base, steps_to_apply) {
            Ok(next) => planned_for_model(
                policy,
                next,
                specialized_schema(policy.auto_increment, projected(base)),
            ),
            Err(error) => Err(PlanErrorView::InvalidStep { error: error }),
        },
        Err(error) => Err(PlanErrorView::InvalidStep { error: error }),
    }
}

/// The steps that a migration runs on the database: those of the plan for
/// the data model that the steps lead to, released only where the plan
/// loses no data or is forced.
pub open spec fn migration(
    policy: DialectPolicy,
    current: DatamodelView,
    steps: Seq<MigrationStepView>,
    force: bool,
    actual: SchemaView,
) -> Result<Seq<StepView>, PlanErrorView> {
    match applied(current, steps) {
        Ok(next) => match planned_for_model(policy, next, actual) {
            Ok(plan) => released(plan, force),
            Err(e) => Err(e),
        },
        Err(error) => Err(PlanErrorView::InvalidStep { error: error }),
    }
}

/// Infers the steps that lead to the next data model, from the current one
/// with the steps that are assumed to be applied to it.
pub fn infer_datamodel_steps(
    current: &Datamodel,
    assume_to_be_applied: &Vec<MigrationStep>,
    next: &Datamodel,
) -> (res: Result<Vec<MigrationStep>, PlanError>)
    ensures
        match res {
            Ok(steps) => inferred(
                current.deep_view(),
                assume_to_be_applied.deep_view(),
                next.deep_view(),
            ) == Ok::<Seq<MigrationStepView>, PlanErrorView>(steps.deep_view()),
            Err(e) => inferred(
                current.deep_view(),
                assume_to_be_applied.deep_view(),
                next.deep_view(),
            ) == Err::<Seq<MigrationStepView>, PlanErrorView>(e.deep_view()),
        },
{
    match apply_steps(current, assume_to_be_applied) {
        Ok(base) => Ok(diff_datamodels(&base, next)),
        Err(error) => Err(PlanError::InvalidStep { error }),
    }
}

/// Calculates the plan for steps of a data model.
pub fn calculate_database_steps(
    policy: &DialectPolicy,
    assume_to_be_applied: &Vec<MigrationStep>,
    steps_to_apply: &Vec<MigrationStep>,
) -> (res: Result<MigrationPlan, PlanError>)
    ensures
        match res {
            Ok(plan) => calculated(
                *policy,
                assume_to_be_applied.deep_view(),
                steps_to_apply.deep_view(),
            ) == Ok::<PlanView, PlanErrorView>(plan.deep_view()),
            Err(e) => calculated(
                *policy,
                assume_to_be_applied.deep_view(),
                steps_to_apply.deep_view(),
            ) == Err::<PlanView, PlanErrorView>(e.deep_view()),
        },
        res matches Ok(plan) ==> respects_order(plan.deep_view().steps),
{
    let nothing = Datamodel::empty();
    assert(nothing.deep_view().models =~= Seq::<ModelView>::empty());
    assert(nothing.deep_view().enums =~= Seq::<EnumView>::empty());
    assert(nothing.deep_view().type_aliases =~= Seq::<TypeAliasView>::empty());
    assert(nothing.deep_view() == empty_datamodel());
    match apply_steps(&nothing, assume_to_be_applied) {
        Ok(base) => match apply_steps(&base, steps_to_apply) {
            Ok(next) => {
                let assumed = policy.specialize_schema(&project(&base));
                plan_migration(policy, &next, &assumed)
            },
            Err(error) => Err(PlanError::InvalidStep { error }),
        },
        Err(error) => Err(PlanError::InvalidStep { error }),
    }
}

/// Plans a migration and releases its steps. Without `force`, a plan that
/// loses data is refused and no step is released.
pub fn apply_migration(
    policy: &DialectPolicy,
    current: &Datamodel,
    steps: &Vec<MigrationStep>,
    force: bool,
    actual: &SqlSchema,
) -> (res: Result<Vec<SqlMigrationStep>, PlanError>)
    ensures
        match res {
            Ok(released_steps) => migration(
                *policy,
                current.deep_view(),
                steps.deep_view(),
                force,
                actual.deep_view(),
            ) == Ok::<Seq<StepView>, PlanErrorView>(released_steps.deep_view()),
            Err(e) => migration(
                *policy,
                current.deep_view(),
                steps.deep_view(),
                force,
                actual.deep_view(),
            ) == Err::<Seq<StepView>, PlanErrorView>(e.deep_view()),
        },
        res matches Ok(released_steps) ==> respects_order(released_steps.deep_view()),
{
    match apply_steps(current, steps) {
        Ok(next) => match plan_migration(policy, &next, actual) {
            Ok(plan) => release(plan, force),
            Err(e) => Err(e),
        },
        Err(error) => Err(PlanError::InvalidStep { error }),
    }
}

} // verus!
