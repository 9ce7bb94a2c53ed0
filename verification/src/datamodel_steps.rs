//! The steps that lead from one data model to the next: each creates,
//! updates or deletes one model, field, enum or type alias.

use vstd::prelude::*;
use crate::datamodel::{
    DefaultValue, DefaultValueView, Field, FieldArity, FieldType, FieldTypeView, FieldView,
    IndexDefinition, IndexDefinitionView, TypeAlias, TypeAliasView, copy_default,
    copy_index_definitions,
};
use crate::text::{copy_names, copy_optional_text};

verus! {

/// Creates a model without fields.
#[derive(Debug, PartialEq, Eq)]
pub struct CreateModel {
    pub model: String,
    pub database_name: Option<String>,
    pub indices: Vec<IndexDefinition>,
    pub id_fields: Vec<String>,
}

/// Changes the attributes of a model that are given.
#[derive(Debug, PartialEq, Eq)]
pub struct UpdateModel {
    pub model: String,
    pub database_name: Option<Option<String>>,
    pub indices: Option<Vec<IndexDefinition>>,
    pub id_fields: Option<Vec<String>>,
}

/// Deletes a model with its fields.
#[derive(Debug, PartialEq, Eq)]
pub struct DeleteModel {
    pub model: String,
}

/// Adds a field to a model.
#[derive(Debug, PartialEq, Eq)]
pub struct CreateField {
    pub model: String,
    pub field: Field,
}

/// Changes the attributes of a field that are given.
#[derive(Debug, PartialEq, Eq)]
pub struct UpdateField {
    pub model: String,
    pub field: String,
    pub arity: Option<FieldArity>,
    pub field_type: Option<FieldType>,
    pub database_name: Option<Option<String>>,
    pub default_value: Option<Option<DefaultValue>>,
    pub is_unique: Option<bool>,
    pub is_id: Option<bool>,
}

/// Takes a field from a model.
#[derive(Debug, PartialEq, Eq)]
pub struct DeleteField {
    pub model: String,
    pub field: String,
}

/// Creates an enum with its values.
#[derive(Debug, PartialEq, Eq)]
pub struct CreateEnum {
    pub name: String,
    pub values: Vec<String>,
}

/// Gives an enum new values.
#[derive(Debug, PartialEq, Eq)]
pub struct UpdateEnum {
    pub name: String,
    pub values: Vec<String>,
}

/// Deletes an enum.
#[derive(Debug, PartialEq, Eq)]
pub struct DeleteEnum {
    pub name: String,
}

/// Creates a type alias.
#[derive(Debug, PartialEq, Eq)]
pub struct CreateTypeAlias {
    pub alias: TypeAlias,
}

/// Deletes a type alias.
#[derive(Debug, PartialEq, Eq)]
pub struct DeleteTypeAlias {
    pub name: String,
}

/// One change to a data model.
#[derive(Debug, PartialEq, Eq)]
pub enum MigrationStep {
    CreateModel(CreateModel),
    UpdateModel(UpdateModel),
    DeleteModel(DeleteModel),
    CreateField(CreateField),
    UpdateField(UpdateField),
    DeleteField(DeleteField),
    CreateEnum(CreateEnum),
    UpdateEnum(UpdateEnum),
    DeleteEnum(DeleteEnum),
    CreateTypeAlias(CreateTypeAlias),
    DeleteTypeAlias(DeleteTypeAlias),
}

/// The attributes of a model that a step changes.
pub struct ModelChanges {
    pub database_name: Option<Option<Seq<char>>>,
    pub indices: Option<Seq<IndexDefinitionView>>,
    pub id_fields: Option<Seq<Seq<char>>>,
}

/// The attributes of a field that a step changes.
pub struct FieldChanges {
    pub arity: Option<FieldArity>,
    pub field_type: Option<FieldTypeView>,
    pub database_name: Option<Option<Seq<char>>>,
    pub default_value: Option<Option<DefaultValueView>>,
    pub is_unique: Option<bool>,
    pub is_id: Option<bool>,
}

/// The view of `MigrationStep` that contracts speak of.
#[allow(inconsistent_fields)]
pub enum MigrationStepView {
    CreateModel {
        model: Seq<char>,
        database_name: Option<Seq<char>>,
        indices: Seq<IndexDefinitionView>,
        id_fields: Seq<Seq<char>>,
    },
    UpdateModel { model: Seq<char>, changes: ModelChanges },
    DeleteModel { model: Seq<char> },
    CreateField { model: Seq<char>, field: FieldView },
    UpdateField { model: Seq<char>, field: Seq<char>, changes: FieldChanges },
    DeleteField { model: Seq<char>, field: Seq<char> },
    CreateEnum { name: Seq<char>, values: Seq<Seq<char>> },
    UpdateEnum { name: Seq<char>, values: Seq<Seq<char>> },
    DeleteEnum { name: Seq<char> },
    CreateTypeAlias { alias: TypeAliasView },
    DeleteTypeAlias { name: Seq<char> },
}

impl UpdateModel {
    /// The attributes that the step changes.
    pub open spec fn changes(&self) -> ModelChanges {
        ModelChanges {
            database_name: self.database_name.deep_view(),
            indices: self.indices.deep_view(),
            id_fields: self.id_fields.deep_view(),
        }
    }
}

impl UpdateField {
    /// The attributes that the step changes.
    pub open spec fn changes(&self) -> FieldChanges {
        FieldChanges {
            arity: self.arity,
            field_type: self.field_type.deep_view(),
            database_name: self.database_name.deep_view(),
            default_value: self.default_value.deep_view(),
            is_unique: self.is_unique,
            is_id: self.is_id,
        }
    }
}

impl DeepView for MigrationStep {
    type V = MigrationStepView;

    open spec fn deep_view(&self) -> MigrationStepView {
        match self {
            MigrationStep::CreateModel(s) => MigrationStepView::CreateModel {
                model: s.model@,
                database_name: s.database_name.deep_view(),
                indices: s.indices.deep_view(),
                id_fields: s.id_fields.deep_view(),
            },
            MigrationStep::UpdateModel(s) => MigrationStepView::UpdateModel {
                model: s.model@,
                changes: s.changes(),
            },
            MigrationStep::DeleteModel(s) => MigrationStepView::DeleteModel { model: s.model@ },
            MigrationStep::CreateField(s) => MigrationStepView::CreateField {
                model: s.model@,
                field: s.field.deep_view(),
            },
            MigrationStep::UpdateField(s) => MigrationStepView::UpdateField {
                model: s.model@,
                field: s.field@,
                changes: s.changes(),
            },
            MigrationStep::DeleteField(s) => MigrationStepView::DeleteField {
                model: s.model@,
                field: s.field@,
            },
            MigrationStep::CreateEnum(s) => MigrationStepView::CreateEnum {
                name: s.name@,
                values: s.values.deep_view(),
            },
            MigrationStep::UpdateEnum(s) => MigrationStepView::UpdateEnum {
                name: s.name@,
                values: s.values.deep_view(),
            },
            MigrationStep::DeleteEnum(s) => MigrationStepView::DeleteEnum { name: s.name@ },
            MigrationStep::CreateTypeAlias(s) => MigrationStepView::CreateTypeAlias {
                alias: s.alias.deep_view(),
            },
            MigrationStep::DeleteTypeAlias(s) => MigrationStepView::DeleteTypeAlias {
                name: s.name@,
            },
        }
    }
}

impl Clone for MigrationStep {
    fn clone(&self) -> (res: Self)
        ensures
            res.deep_view() == self.deep_view(),
    {
        match self {
            MigrationStep::CreateModel(s) => MigrationStep::CreateModel(
                CreateModel {
                    model: s.model.clone(),
                    database_name: copy_optional_text(&s.database_name),
                    indices: copy_index_definitions(&s.indices),
                    id_fields: copy_names(&s.id_fields),
                },
            ),
            MigrationStep::UpdateModel(s) => {
                let database_name = match &s.database_name {
                    Some(name) => Some(copy_optional_text(name)),
                    None => None,
                };
                let indices = match &s.indices {
                    Some(list) => Some(copy_index_definitions(list)),
                    None => None,
                };
                let id_fields = match &s.id_fields {
                    Some(list) => Some(copy_names(list)),
                    None => None,
                };
                MigrationStep::UpdateModel(
                    UpdateModel { model: s.model.clone(), database_name, indices, id_fields },
                )
            },
            MigrationStep::DeleteModel(s) => MigrationStep::DeleteModel(
                DeleteModel { model: s.model.clone() },
            ),
            MigrationStep::CreateField(s) => MigrationStep::CreateField(
                CreateField { model: s.model.clone(), field: s.field.clone() },
            ),
            MigrationStep::UpdateField(s) => {
                let field_type = match &s.field_type {
                    Some(t) => Some(t.clone()),
                    None => None,
                };
                let database_name = match &s.database_name {
                    Some(name) => Some(copy_optional_text(name)),
                    None => None,
                };
                let default_value = match &s.default_value {
                    Some(value) => Some(copy_default(value)),
                    None => None,
                };
                MigrationStep::UpdateField(
                    UpdateField {
                        model: s.model.clone(),
                        field: s.field.clone(),
                        arity: s.arity,
                        field_type,
                        database_name,
                        default_value,
                        is_unique: s.is_unique,
                        is_id: s.is_id,
                    },
                )
            },
            MigrationStep::DeleteField(s) => MigrationStep::DeleteField(
                DeleteField { model: s.model.clone(), field: s.field.clone() },
            ),
            MigrationStep::CreateEnum(s) => MigrationStep::CreateEnum(
                CreateEnum { name: s.name.clone(), values: copy_names(&s.values) },
            ),
            MigrationStep::UpdateEnum(s) => MigrationStep::UpdateEnum(
                UpdateEnum { name: s.name.clone(), values: copy_names(&s.values) },
            ),
            MigrationStep::DeleteEnum(s) => MigrationStep::DeleteEnum(
                DeleteEnum { name: s.name.clone() },
            ),
            MigrationStep::CreateTypeAlias(s) => MigrationStep::CreateTypeAlias(
                CreateTypeAlias { alias: s.alias.clone() },
            ),
            MigrationStep::DeleteTypeAlias(s) => MigrationStep::DeleteTypeAlias(
                DeleteTypeAlias { name: s.name.clone() },
            ),
        }
    }
}

/// Moves the steps of `more` to the end of `steps`.
pub fn append_migration_steps(steps: &mut Vec<MigrationStep>, more: Vec<MigrationStep>)
    ensures
        final(steps).deep_view() == old(steps).deep_view() + more.deep_view(),
{
    let mut more = more;
    let ghost before = steps.deep_view();
    let ghost added = more.deep_view();
    steps.append(&mut more);
    assert(steps.deep_view() =~= before + added);
}

} // verus!
