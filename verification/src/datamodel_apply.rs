//! Replaying steps on a data model.
//!
//! The steps of earlier migrations are the record of what a data model has
//! become. Applied in order to the model they started from, they give the
//! model they led to; a step that does not fit the model it meets is an
//! error, and nothing after it is applied.

use vstd::prelude::*;
use crate::datamodel::{
    Datamodel, DatamodelView, Enum, EnumView, Field, FieldView, Model, ModelView, alias_names,
    copy_default, copy_fields, copy_index_definitions, enum_names, field_names, model_names,
};
use crate::datamodel_steps::{
    FieldChanges, MigrationStep, MigrationStepView, ModelChanges, UpdateField, UpdateModel,
};
use crate::seqs::position_of;
use crate::text::{copy_names, copy_optional_text};

verus! {

/// What a step was about to do to something that is not there.
#[derive(Debug, Clone, Copy, PartialEq, Eq, Structural)]
pub enum Intent {
    Update,
    Delete,
}

/// Why a step does not fit the data model it meets.
#[derive(Debug, PartialEq, Eq)]
pub enum StepError {
    ModelAlreadyExists { model: String },
    ModelDoesNotExist { model: String, intent: Intent },
    FieldAlreadyExists { model: String, field: String },
    FieldDoesNotExist { model: String, field: String, intent: Intent },
    EnumAlreadyExists { name: String },
    EnumDoesNotExist { name: String, intent: Intent },
    TypeAliasAlreadyExists { name: String },
    TypeAliasDoesNotExist { name: String },
}

/// The view of `StepError` that contracts speak of.
pub enum StepErrorView {
    ModelAlreadyExists { model: Seq<char> },
    ModelDoesNotExist { model: Seq<char>, intent: Intent },
    FieldAlreadyExists { model: Seq<char>, field: Seq<char> },
    FieldDoesNotExist { model: Seq<char>, field: Seq<char>, intent: Intent },
    EnumAlreadyExists { name: Seq<char> },
    EnumDoesNotExist { name: Seq<char>, intent: Intent },
    TypeAliasAlreadyExists { name: Seq<char> },
    TypeAliasDoesNotExist { name: Seq<char> },
}

impl DeepView for StepError {
    type V = StepErrorView;

    open spec fn deep_view(&self) -> StepErrorView {
        match self {
            StepError::ModelAlreadyExists { model } => StepErrorView::ModelAlreadyExists {
                model: model@,
            },
            StepError::ModelDoesNotExist { model, intent } => StepErrorView::ModelDoesNotExist {
                model: model@,
                intent: *intent,
            },
            StepError::FieldAlreadyExists { model, field } => StepErrorView::FieldAlreadyExists {
                model: model@,
                field: field@,
            },
            StepError::FieldDoesNotExist { model, field, intent } =>
                StepErrorView::FieldDoesNotExist { model: model@, field: field@, intent: *intent },
            StepError::EnumAlreadyExists { name } => StepErrorView::EnumAlreadyExists {
                name: name@,
            },
            StepError::EnumDoesNotExist { name, intent } => StepErrorView::EnumDoesNotExist {
                name: name@,
                intent: *intent,
            },
            StepError::TypeAliasAlreadyExists { name } => StepErrorView::TypeAliasAlreadyExists {
                name: name@,
            },
            StepError::TypeAliasDoesNotExist { name } => StepErrorView::TypeAliasDoesNotExist {
                name: name@,
            },
        }
    }
}

/// The words for what could not be done.
pub open spec fn intent_text(intent: Intent) -> Seq<char> {
    match intent {
        Intent::Update => "update"@,
        Intent::Delete => "delete"@,
    }
}

/// The message of an error.
pub open spec fn error_message(error: StepErrorView) -> Seq<char> {
    match error {
        StepErrorView::ModelAlreadyExists { model } => "The model "@ + model
            + " already exists in this Datamodel. It is not possible to create it once more."@,
        StepErrorView::ModelDoesNotExist { model, intent } => "The model "@ + model
            + " does not exist in this Datamodel. It is not possible to "@ + intent_text(intent)
            + " it."@,
        StepErrorView::FieldAlreadyExists { model, field } => "The field "@ + field
            + " on model "@ + model
            + " already exists in this Datamodel. It is not possible to create it once more."@,
        StepErrorView::FieldDoesNotExist { model, field, intent } => "The field "@ + field
            + " on model "@ + model + " does not exist in this Datamodel. It is not possible to "@
            + intent_text(intent) + " it."@,
        StepErrorView::EnumAlreadyExists { name } => "The enum "@ + name
            + " already exists in this Datamodel. It is not possible to create it once more."@,
        StepErrorView::EnumDoesNotExist { name, intent } => "The enum "@ + name
            + " does not exist in this Datamodel. It is not possible to "@ + intent_text(intent)
            + " it."@,
        StepErrorView::TypeAliasAlreadyExists { name } => "The type alias "@ + name
            + " already exists in this Datamodel. It is not possible to create it once more."@,
        StepErrorView::TypeAliasDoesNotExist { name } => "The type alias "@ + name
            + " does not exist in this Datamodel. It is not possible to delete it."@,
    }
}

impl StepError {
    /// The message of the error.
    pub fn message(&self) -> (res: String)
        ensures
            res@ == error_message(self.deep_view()),
    {
        match self {
            StepError::ModelAlreadyExists { model } => {
                let mut out = String::from_str("The model ");
                out.append(model.as_str());
                out.append(
                    " already exists in this Datamodel. It is not possible to create it once more.",
                );
                out
            },
            StepError::ModelDoesNotExist { model, intent } => {
                let mut out = String::from_str("The model ");
                out.append(model.as_str());
                out.append(" does not exist in this Datamodel. It is not possible to ");
                out.append(intent_word(*intent));
                out.append(" it.");
                out
            },
            StepError::FieldAlreadyExists { model, field } => {
                let mut out = String::from_str("The field ");
                out.append(field.as_str());
                out.append(" on model ");
                out.append(model.as_str());
                out.append(
                    " already exists in this Datamodel. It is not possible to create it once more.",
                );
                out
            },
            StepError::FieldDoesNotExist { model, field, intent } => {
                let mut out = String::from_str("The field ");
                out.append(field.as_str());
                out.append(" on model ");
                out.append(model.as_str());
                out.append(" does not exist in this Datamodel. It is not possible to ");
                out.append(intent_word(*intent));
                out.append(" it.");
                out
            },
            StepError::EnumAlreadyExists { name } => {
                let mut out = String::from_str("The enum ");
                out.append(name.as_str());
                out.append(
                    " already exists in this Datamodel. It is not possible to create it once more.",
                );
                out
            },
            StepError::EnumDoesNotExist { name, intent } => {
                let mut out = String::from_str("The enum ");
                out.append(name.as_str());
                out.append(" does not exist in this Datamodel. It is not possible to ");
                out.append(intent_word(*intent));
                out.append(" it.");
                out
            },
            StepError::TypeAliasAlreadyExists { name } => {
                let mut out = String::from_str("The type alias ");
                out.append(name.as_str());
                out.append(
                    " already exists in this Datamodel. It is not possible to create it once more.",
                );
                out
            },
            StepError::TypeAliasDoesNotExist { name } => {
                let mut out = String::from_str("The type alias ");
                out.append(name.as_str());
                out.append(" does not exist in this Datamodel. It is not possible to delete it.");
                out
            },
        }
    }
}

/// The word for what could not be done.
pub fn intent_word(intent: Intent) -> (res: &'static str)
    ensures
        res@ == intent_text(intent),
{
    match intent {
        Intent::Update => "update",
        Intent::Delete => "delete",
    }
}

/// A model with the attributes that a step changes.
pub open spec fn with_model_changes(model: ModelView, changes: ModelChanges) -> ModelView {
    ModelView {
        database_name: match changes.database_name {
            Some(v) => v,
            None => model.database_name,
        },
        indices: match changes.indices {
            Some(v) => v,
            None => model.indices,
        },
        id_fields: match changes.id_fields {
            Some(v) => v,
            None => model.id_fields,
        },
        ..model
    }
}

/// A field with the attributes that a step changes.
pub open spec fn with_field_changes(field: FieldView, changes: FieldChanges) -> FieldView {
    FieldView {
        arity: match changes.arity {
            Some(v) => v,
            None => field.arity,
        },
        field_type: match changes.field_type {
            Some(v) => v,
            None => field.field_type,
        },
        database_name: match changes.database_name {
            Some(v) => v,
            None => field.database_name,
        },
        default_value: match changes.default_value {
            Some(v) => v,
            None => field.default_value,
        },
        is_unique: match changes.is_unique {
            Some(v) => v,
            None => field.is_unique,
        },
        is_id: match changes.is_id {
            Some(v) => v,
            None => field.is_id,
        },
        ..field
    }
}

/// The data model with the model at `i` replaced.
pub open spec fn with_model(dm: DatamodelView, i: int, model: ModelView) -> DatamodelView {
    DatamodelView { models: dm.models.update(i, model), ..dm }
}

/// The data model after one step, or why the step does not fit.
pub open spec fn applied_step(dm: DatamodelView, step: MigrationStepView) -> Result<
    DatamodelView,
    StepErrorView,
> {
    match step {
        MigrationStepView::CreateModel { model, database_name, indices, id_fields } => {
            if dm.has_model(model) {
                Err(StepErrorView::ModelAlreadyExists { model })
            } else {
                Ok(
                    DatamodelView {
                        models: dm.models.push(
                            ModelView {
                                name: model,
                                fields: Seq::empty(),
                                database_name,
                                indices,
                                id_fields,
                            },
                        ),
                        ..dm
                    },
                )
            }
        },
        MigrationStepView::UpdateModel { model, changes } => {
            match position_of(model_names(dm.models), model) {
                Some(i) => Ok(with_model(dm, i, with_model_changes(dm.models[i], changes))),
                None => Err(StepErrorView::ModelDoesNotExist { model, intent: Intent::Update }),
            }
        },
        MigrationStepView::DeleteModel { model } => {
            match position_of(model_names(dm.models), model) {
                Some(i) => Ok(DatamodelView { models: dm.models.remove(i), ..dm }),
                None => Err(StepErrorView::ModelDoesNotExist { model, intent: Intent::Delete }),
            }
        },
        MigrationStepView::CreateField { model, field } => {
            match position_of(model_names(dm.models), model) {
                Some(i) => if dm.models[i].has_field(field.name) {
                    Err(StepErrorView::FieldAlreadyExists { model, field: field.name })
                } else {
                    Ok(
                        with_model(
                            dm,
                            i,
                            ModelView { fields: dm.models[i].fields.push(field), ..dm.models[i] },
                        ),
                    )
                },
                None => Err(StepErrorView::ModelDoesNotExist { model, intent: Intent::Update }),
            }
        },
        MigrationStepView::UpdateField { model, field, changes } => {
            match position_of(model_names(dm.models), model) {
                Some(i) => match position_of(field_names(dm.models[i].fields), field) {
                    Some(j) => Ok(
                        with_model(
                            dm,
                            i,
                            ModelView {
                                fields: dm.models[i].fields.update(
                                    j,
                                    with_field_changes(dm.models[i].fields[j], changes),
                                ),
                                ..dm.models[i]
                            },
                        ),
                    ),
                    None => Err(
                        StepErrorView::FieldDoesNotExist { model, field, intent: Intent::Update },
                    ),
                },
                None => Err(StepErrorView::ModelDoesNotExist { model, intent: Intent::Update }),
            }
        },
        MigrationStepView::DeleteField { model, field } => {
            match position_of(model_names(dm.models), model) {
                Some(i) => match position_of(field_names(dm.models[i].fields), field) {
                    Some(j) => Ok(
                        with_model(
                            dm,
                            i,
                            ModelView { fields: dm.models[i].fields.remove(j), ..dm.models[i] },
                        ),
                    ),
                    None => Err(
                        StepErrorView::FieldDoesNotExist { model, field, intent: Intent::Delete },
                    ),
                },
                None => Err(StepErrorView::ModelDoesNotExist { model, intent: Intent::Update }),
            }
        },
        MigrationStepView::CreateEnum { name, values } => {
            if dm.has_enum(name) {
                Err(StepErrorView::EnumAlreadyExists { name })
            } else {
                Ok(DatamodelView { enums: dm.enums.push(EnumView { name, values }), ..dm })
            }
        },
        MigrationStepView::UpdateEnum { name, values } => {
            match position_of(enum_names(dm.enums), name) {
                Some(i) => Ok(
                    DatamodelView { enums: dm.enums.update(i, EnumView { name, values }), ..dm },
                ),
                None => Err(StepErrorView::EnumDoesNotExist { name, intent: Intent::Update }),
            }
        },
        MigrationStepView::DeleteEnum { name } => {
            match position_of(enum_names(dm.enums), name) {
                Some(i) => Ok(DatamodelView { enums: dm.enums.remove(i), ..dm }),
                None => Err(StepErrorView::EnumDoesNotExist { name, intent: Intent::Delete }),
            }
        },
        MigrationStepView::CreateTypeAlias { alias } => {
            if dm.has_type_alias(alias.name) {
                Err(StepErrorView::TypeAliasAlreadyExists { name: alias.name })
            } else {
                Ok(DatamodelView { type_aliases: dm.type_aliases.push(alias), ..dm })
            }
        },
        MigrationStepView::DeleteTypeAlias { name } => {
            match position_of(alias_names(dm.type_aliases), name) {
                Some(i) => Ok(DatamodelView { type_aliases: dm.type_aliases.remove(i), ..dm }),
                None => Err(StepErrorView::TypeAliasDoesNotExist { name }),
            }
        },
    }
}

/// The data model after all steps in order, or the error of the first step
/// that does not fit.
pub open spec fn applied(dm: DatamodelView, steps: Seq<MigrationStepView>) -> Result<
    DatamodelView,
    StepErrorView,
>
    decreases steps.len(),
{
    if steps.len() == 0 {
        Ok(dm)
    } else {
        match applied(dm, steps.drop_last()) {
            Ok(before) => applied_step(before, steps.last()),
            Err(e) => Err(e),
        }
    }
}

/// A model with the attributes that a step changes.
pub fn changed_model(model: &Model, step: &UpdateModel) -> (res: Model)
    ensures
        res.deep_view() == with_model_changes(model.deep_view(), step.changes()),
{
    Model {
        name: model.name.clone(),
        fields: copy_fields(&model.fields),
        database_name: match &step.database_name {
            Some(v) => copy_optional_text(v),
            None => copy_optional_text(&model.database_name),
        },
        indices: match &step.indices {
            Some(v) => copy_index_definitions(v),
            None => copy_index_definitions(&model.indices),
        },
        id_fields: match &step.id_fields {
            Some(v) => copy_names(v),
            None => copy_names(&model.id_fields),
        },
    }
}

/// A field with the attributes that a step changes.
pub fn changed_field(field: &Field, step: &UpdateField) -> (res: Field)
    ensures
        res.deep_view() == with_field_changes(field.deep_view(), step.changes()),
{
    Field {
        name: field.name.clone(),
        arity: match step.arity {
            Some(v) => v,
            None => field.arity,
        },
        field_type: match &step.field_type {
            Some(v) => v.clone(),
            None => field.field_type.clone(),
        },
        database_name: match &step.database_name {
            Some(v) => copy_optional_text(v),
            None => copy_optional_text(&field.database_name),
        },
        default_value: match &step.default_value {
            Some(v) => copy_default(v),
            None => copy_default(&field.default_value),
        },
        is_unique: match step.is_unique {
            Some(v) => v,
            None => field.is_unique,
        },
        is_id: match step.is_id {
            Some(v) => v,
            None => field.is_id,
        },
        span: field.span,
    }
}

/// A model with other fields.
pub fn model_with_fields(model: &Model, fields: Vec<Field>) -> (res: Model)
    ensures
        res.deep_view() == (ModelView { fields: fields.deep_view(), ..model.deep_view() }),
{
    Model {
        name: model.name.clone(),
        fields,
        database_name: copy_optional_text(&model.database_name),
        indices: copy_index_definitions(&model.indices),
        id_fields: copy_names(&model.id_fields),
    }
}

/// The data model with the model at `i` replaced.
pub fn replace_model(dm: Datamodel, i: usize, model: Model) -> (res: Datamodel)
    requires
        i < dm.models.len(),
    ensures
        res.deep_view() == with_model(dm.deep_view(), i as int, model.deep_view()),
{
    let mut dm = dm;
    let ghost before = dm.models.deep_view();
    let ghost shown = model.deep_view();
    dm.models.set(i, model);
    assert(dm.models.deep_view() =~= before.update(i as int, shown));
    dm
}

/// Applies one step to a data model.
pub fn apply_step(dm: Datamodel, step: &MigrationStep) -> (res: Result<Datamodel, StepError>)
    ensures
        match res {
            Ok(after) => applied_step(dm.deep_view(), step.deep_view()) == Ok::<
                DatamodelView,
                StepErrorView,
            >(after.deep_view()),
            Err(e) => applied_step(dm.deep_view(), step.deep_view()) == Err::<
                DatamodelView,
                StepErrorView,
            >(e.deep_view()),
        },
{
    let ghost start = dm.deep_view();
    let mut dm = dm;
    match step {
        MigrationStep::CreateModel(s) => {
            if dm.model_position(s.model.as_str()).is_some() {
                return Err(StepError::ModelAlreadyExists { model: s.model.clone() });
            }
            let made = Model {
                name: s.model.clone(),
                fields: Vec::new(),
                database_name: copy_optional_text(&s.database_name),
                indices: copy_index_definitions(&s.indices),
                id_fields: copy_names(&s.id_fields),
            };
            assert(made.fields.deep_view() =~= Seq::<FieldView>::empty());
            let ghost shown = made.deep_view();
            dm.models.push(made);
            assert(dm.models.deep_view() =~= start.models.push(shown));
            Ok(dm)
        },
        MigrationStep::UpdateModel(s) => {
            match dm.model_position(s.model.as_str()) {
                Some(i) => {
                    let updated = changed_model(&dm.models[i], s);
                    Ok(replace_model(dm, i, updated))
                },
                None => Err(
                    StepError::ModelDoesNotExist { model: s.model.clone(), intent: Intent::Update },
                ),
            }
        },
        MigrationStep::DeleteModel(s) => {
            match dm.model_position(s.model.as_str()) {
                Some(i) => {
                    dm.models.remove(i);
                    assert(dm.models.deep_view() =~= start.models.remove(i as int));
                    Ok(dm)
                },
                None => Err(
                    StepError::ModelDoesNotExist { model: s.model.clone(), intent: Intent::Delete },
                ),
            }
        },
        MigrationStep::CreateField(s) => {
            match dm.model_position(s.model.as_str()) {
                Some(i) => {
                    if dm.models[i].field_position(s.field.name.as_str()).is_some() {
                        return Err(
                            StepError::FieldAlreadyExists {
                                model: s.model.clone(),
                                field: s.field.name.clone(),
                            },
                        );
                    }
                    let mut fields = copy_fields(&dm.models[i].fields);
                    let ghost before = fields.deep_view();
                    fields.push(s.field.clone());
                    assert(fields.deep_view() =~= before.push(s.field.deep_view()));
                    let updated = model_with_fields(&dm.models[i], fields);
                    Ok(replace_model(dm, i, updated))
                },
                None => Err(
                    StepError::ModelDoesNotExist { model: s.model.clone(), intent: Intent::Update },
                ),
            }
        },
        MigrationStep::UpdateField(s) => {
            match dm.model_position(s.model.as_str()) {
                Some(i) => {
                    match dm.models[i].field_position(s.field.as_str()) {
                        Some(j) => {
                            let mut fields = copy_fields(&dm.models[i].fields);
                            let ghost before = fields.deep_view();
                            let changed = changed_field(&dm.models[i].fields[j], s);
                            let ghost shown = changed.deep_view();
                            fields.set(j, changed);
                            assert(fields.deep_view() =~= before.update(j as int, shown));
                            let updated = model_with_fields(&dm.models[i], fields);
                            Ok(replace_model(dm, i, updated))
                        },
                        None => Err(
                            StepError::FieldDoesNotExist {
                                model: s.model.clone(),
                                field: s.field.clone(),
                                intent: Intent::Update,
                            },
                        ),
                    }
                },
                None => Err(
                    StepError::ModelDoesNotExist { model: s.model.clone(), intent: Intent::Update },
                ),
            }
        },
        MigrationStep::DeleteField(s) => {
            match dm.model_position(s.model.as_str()) {
                Some(i) => {
                    match dm.models[i].field_position(s.field.as_str()) {
                        Some(j) => {
                            let mut fields = copy_fields(&dm.models[i].fields);
                            let ghost before = fields.deep_view();
                            fields.remove(j);
                            assert(fields.deep_view() =~= before.remove(j as int));
                            let updated = model_with_fields(&dm.models[i], fields);
                            Ok(replace_model(dm, i, updated))
                        },
                        None => Err(
                            StepError::FieldDoesNotExist {
                                model: s.model.clone(),
                                field: s.field.clone(),
                                intent: Intent::Delete,
                            },
                        ),
                    }
                },
                None => Err(
                    StepError::ModelDoesNotExist { model: s.model.clone(), intent: Intent::Update },
                ),
            }
        },
        MigrationStep::CreateEnum(s) => {
            if dm.enum_position(s.name.as_str()).is_some() {
                return Err(StepError::EnumAlreadyExists { name: s.name.clone() });
            }
            let made = Enum { name: s.name.clone(), values: copy_names(&s.values) };
            let ghost shown = made.deep_view();
            dm.enums.push(made);
            assert(dm.enums.deep_view() =~= start.enums.push(shown));
            Ok(dm)
        },
        MigrationStep::UpdateEnum(s) => {
            match dm.enum_position(s.name.as_str()) {
                Some(i) => {
                    let made = Enum { name: s.name.clone(), values: copy_names(&s.values) };
                    let ghost shown = made.deep_view();
                    dm.enums.set(i, made);
                    assert(dm.enums.deep_view() =~= start.enums.update(i as int, shown));
                    Ok(dm)
                },
                None => Err(
                    StepError::EnumDoesNotExist { name: s.name.clone(), intent: Intent::Update },
                ),
            }
        },
        MigrationStep::DeleteEnum(s) => {
            match dm.enum_position(s.name.as_str()) {
                Some(i) => {
                    dm.enums.remove(i);
                    assert(dm.enums.deep_view() =~= start.enums.remove(i as int));
                    Ok(dm)
                },
                None => Err(
                    StepError::EnumDoesNotExist { name: s.name.clone(), intent: Intent::Delete },
                ),
            }
        },
        MigrationStep::CreateTypeAlias(s) => {
            if dm.alias_position(s.alias.name.as_str()).is_some() {
                return Err(StepError::TypeAliasAlreadyExists { name: s.alias.name.clone() });
            }
            let made = s.alias.clone();
            let ghost shown = made.deep_view();
            dm.type_aliases.push(made);
            assert(dm.type_aliases.deep_view() =~= start.type_aliases.push(shown));
            Ok(dm)
        },
        MigrationStep::DeleteTypeAlias(s) => {
            match dm.alias_position(s.name.as_str()) {
                Some(i) => {
                    dm.type_aliases.remove(i);
                    assert(dm.type_aliases.deep_view() =~= start.type_aliases.remove(i as int));
                    Ok(dm)
                },
                None => Err(StepError::TypeAliasDoesNotExist { name: s.name.clone() }),
            }
        },
    }
}

/// Applies steps in order to a data model. Stops at the first step that
/// does not fit.
pub fn apply_steps(dm: &Datamodel, steps: &Vec<MigrationStep>) -> (res: Result<
    Datamodel,
    StepError,
>)
    ensures
        match res {
            Ok(after) => applied(dm.deep_view(), steps.deep_view()) == Ok::<
                DatamodelView,
                StepErrorView,
            >(after.deep_view()),
            Err(e) => applied(dm.deep_view(), steps.deep_view()) == Err::<
                DatamodelView,
                StepErrorView,
            >(e.deep_view()),
        },
{
    let ghost start = dm.deep_view();
    let ghost all = steps.deep_view();
    let mut current = dm.clone();
    let mut i: usize = 0;
    assert(all.take(0) =~= Seq::<MigrationStepView>::empty());
    while i < steps.len()
        invariant
            0 <= i <= steps.len(),
            start == dm.deep_view(),
            all == steps.deep_view(),
            applied(start, all.take(i as int)) == Ok::<DatamodelView, StepErrorView>(
                current.deep_view(),
            ),
        decreases steps.len() - i,
    {
        proof {
            assert(all.take(i + 1).drop_last() =~= all.take(i as int));
            assert(all.take(i + 1).last() == all[i as int]);
        }
        match apply_step(current, &steps[i]) {
            Ok(next) => {
                current = next;
            },
            Err(e) => {
                proof {
                    lemma_error_stays(start, all, i + 1);
                }
                return Err(e);
            },
        }
        i += 1;
    }
    assert(all.take(steps.len() as int) =~= all);
    Ok(current)
}

/// Once a step has failed, the steps after it change nothing.
pub proof fn lemma_error_stays(dm: DatamodelView, steps: Seq<MigrationStepView>, k: int)
    requires
        0 <= k <= steps.len(),
        applied(dm, steps.take(k)) is Err,
    ensures
        applied(dm, steps) == applied(dm, steps.take(k)),
    decreases steps.len() - k,
{
    if k == steps.len() {
        assert(steps.take(k) =~= steps);
    } else {
        assert(steps.take(k + 1).drop_last() =~= steps.take(k));
        lemma_error_stays(dm, steps, k + 1);
    }
}

} // verus!
