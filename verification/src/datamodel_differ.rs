//! Comparing two data models.
//!
//! Models, enums and type aliases are matched by name, and so are the
//! fields of two models of one name. What only the new side has is created,
//! what only the old side has is deleted, and what both have with different
//! attributes is updated with the attributes that changed. A changed name is
//! a deletion and a creation.

use vstd::prelude::*;
use crate::datamodel::{
    Datamodel, DatamodelView, EnumView, Field, FieldView, Model, ModelView, TypeAlias,
    TypeAliasView, copy_default, copy_index_definitions, field_names, same_default,
    same_index_definitions,
};
use crate::datamodel_steps::{
    CreateEnum, CreateField, CreateModel, CreateTypeAlias, DeleteEnum, DeleteField, DeleteModel,
    DeleteTypeAlias, FieldChanges, MigrationStep, MigrationStepView, ModelChanges, UpdateEnum,
    UpdateField, UpdateModel, append_migration_steps,
};
use crate::seqs::{lemma_position_of, position_of};
use crate::text::{copy_names, copy_optional_text, same_names, same_optional_text};

verus! {

/// A type alias that the new side does not have as it is goes.
pub open spec fn deleted_alias(new: DatamodelView) -> spec_fn(TypeAliasView) -> Option<
    MigrationStepView,
> {
    |a: TypeAliasView|
        if new.type_alias(a.name) == Some(a) {
            None
        } else {
            Some(MigrationStepView::DeleteTypeAlias { name: a.name })
        }
}

/// A type alias that the old side does not have as it is comes.
pub open spec fn created_alias(old: DatamodelView) -> spec_fn(TypeAliasView) -> Option<
    MigrationStepView,
> {
    |a: TypeAliasView|
        if old.type_alias(a.name) == Some(a) {
            None
        } else {
            Some(MigrationStepView::CreateTypeAlias { alias: a })
        }
}

/// An enum that the old side lacks is created.
pub open spec fn created_enum(old: DatamodelView) -> spec_fn(EnumView) -> Option<
    MigrationStepView,
> {
    |e: EnumView|
        if old.has_enum(e.name) {
            None
        } else {
            Some(MigrationStepView::CreateEnum { name: e.name, values: e.values })
        }
}

/// An enum on both sides with other values gets the new values.
pub open spec fn updated_enum(old: DatamodelView) -> spec_fn(EnumView) -> Option<
    MigrationStepView,
> {
    |e: EnumView|
        match old.find_enum(e.name) {
            Some(o) => if o.values == e.values {
                None
            } else {
                Some(MigrationStepView::UpdateEnum { name: e.name, values: e.values })
            },
            None => None,
        }
}

/// An enum that the new side lacks is deleted.
pub open spec fn deleted_enum(new: DatamodelView) -> spec_fn(EnumView) -> Option<
    MigrationStepView,
> {
    |e: EnumView|
        if new.has_enum(e.name) {
            None
        } else {
            Some(MigrationStepView::DeleteEnum { name: e.name })
        }
}

/// A model that the old side lacks is created, without its fields.
pub open spec fn created_model(old: DatamodelView) -> spec_fn(ModelView) -> Option<
    MigrationStepView,
> {
    |m: ModelView|
        if old.has_model(m.name) {
            None
        } else {
            Some(
                MigrationStepView::CreateModel {
                    model: m.name,
                    database_name: m.database_name,
                    indices: m.indices,
                    id_fields: m.id_fields,
                },
            )
        }
}

/// The attributes of a model that differ, each with its new value.
pub open spec fn model_changes(old: ModelView, new: ModelView) -> ModelChanges {
    ModelChanges {
        database_name: if old.database_name == new.database_name {
            None
        } else {
            Some(new.database_name)
        },
        indices: if old.indices == new.indices {
            None
        } else {
            Some(new.indices)
        },
        id_fields: if old.id_fields == new.id_fields {
            None
        } else {
            Some(new.id_fields)
        },
    }
}

/// Whether no attribute of a model changes.
pub open spec fn no_model_changes(changes: ModelChanges) -> bool {
    changes.database_name is None && changes.indices is None && changes.id_fields is None
}

/// A model on both sides whose attributes differ is updated.
pub open spec fn updated_model(old: DatamodelView) -> spec_fn(ModelView) -> Option<
    MigrationStepView,
> {
    |m: ModelView|
        match old.model(m.name) {
            Some(o) => if no_model_changes(model_changes(o, m)) {
                None
            } else {
                Some(MigrationStepView::UpdateModel { model: m.name, changes: model_changes(o, m) })
            },
            None => None,
        }
}

/// A model that the new side lacks is deleted.
pub open spec fn deleted_model(new: DatamodelView) -> spec_fn(ModelView) -> Option<
    MigrationStepView,
> {
    |o: ModelView|
        if new.has_model(o.name) {
            None
        } else {
            Some(MigrationStepView::DeleteModel { model: o.name })
        }
}

/// The fields of the model of that name, none where there is no such model.
pub open spec fn fields_of(dm: DatamodelView, model: Seq<char>) -> Seq<FieldView> {
    match dm.model(model) {
        Some(m) => m.fields,
        None => Seq::empty(),
    }
}

/// A field that the old fields lack is created.
pub open spec fn created_field(model: Seq<char>, old_fields: Seq<FieldView>) -> spec_fn(
    FieldView,
) -> Option<MigrationStepView> {
    |f: FieldView|
        if position_of(field_names(old_fields), f.name) is Some {
            None
        } else {
            Some(MigrationStepView::CreateField { model: model, field: f })
        }
}

/// The attributes of a field that differ, each with its new value. The
/// place of the declaration in the source text is no attribute.
pub open spec fn field_changes(old: FieldView, new: FieldView) -> FieldChanges {
    FieldChanges {
        arity: if old.arity == new.arity {
            None
        } else {
            Some(new.arity)
        },
        field_type: if old.field_type == new.field_type {
            None
        } else {
            Some(new.field_type)
        },
        database_name: if old.database_name == new.database_name {
            None
        } else {
            Some(new.database_name)
        },
        default_value: if old.default_value == new.default_value {
            None
        } else {
            Some(new.default_value)
        },
        is_unique: if old.is_unique == new.is_unique {
            None
        } else {
            Some(new.is_unique)
        },
        is_id: if old.is_id == new.is_id {
            None
        } else {
            Some(new.is_id)
        },
    }
}

/// Whether no attribute of a field changes.
pub open spec fn no_field_changes(changes: FieldChanges) -> bool {
    changes.arity is None && changes.field_type is None && changes.database_name is None
        && changes.default_value is None && changes.is_unique is None && changes.is_id is None
}

/// A field on both sides whose attributes differ is updated.
pub open spec fn updated_field(model: Seq<char>, old: ModelView) -> spec_fn(FieldView) -> Option<
    MigrationStepView,
> {
    |f: FieldView|
        match old.field(f.name) {
            Some(g) => if no_field_changes(field_changes(g, f)) {
                None
            } else {
                Some(
                    MigrationStepView::UpdateField {
                        model: model,
                        field: f.name,
                        changes: field_changes(g, f),
                    },
                )
            },
            None => None,
        }
}

/// A field that the new model lacks is deleted.
pub open spec fn deleted_field(model: Seq<char>, new: ModelView) -> spec_fn(FieldView) -> Option<
    MigrationStepView,
> {
    |g: FieldView|
        if new.has_field(g.name) {
            None
        } else {
            Some(MigrationStepView::DeleteField { model: model, field: g.name })
        }
}

/// The fields that a model of the new side gains: all of them where the
/// model is new.
pub open spec fn field_creates(old: DatamodelView) -> spec_fn(ModelView) -> Seq<
    MigrationStepView,
> {
    |m: ModelView| m.fields.filter_map(created_field(m.name, fields_of(old, m.name)))
}

/// The fields of a model on both sides that change.
pub open spec fn field_updates(old: DatamodelView) -> spec_fn(ModelView) -> Seq<
    MigrationStepView,
> {
    |m: ModelView|
        match old.model(m.name) {
            Some(o) => m.fields.filter_map(updated_field(m.name, o)),
            None => Seq::empty(),
        }
}

/// The fields that a model on both sides loses.
pub open spec fn field_deletes(new: DatamodelView) -> spec_fn(ModelView) -> Seq<
    MigrationStepView,
> {
    |o: ModelView|
        match new.model(o.name) {
            Some(m) => o.fields.filter_map(deleted_field(o.name, m)),
            None => Seq::empty(),
        }
}

/// The steps that lead from `old` to `new`. Type aliases that go come
/// first; then enums, type aliases and models are created, then fields;
/// then enums, models and fields are updated; then fields, models and
/// enums are deleted. So whatever a step refers to is there when it runs.
pub open spec fn datamodel_diff(old: DatamodelView, new: DatamodelView) -> Seq<MigrationStepView> {
    old.type_aliases.filter_map(deleted_alias(new)) + new.enums.filter_map(created_enum(old))
        + new.type_aliases.filter_map(created_alias(old)) + new.models.filter_map(
        created_model(old),
    ) + new.models.flat_map(field_creates(old)) + new.enums.filter_map(updated_enum(old))
        + new.models.filter_map(updated_model(old)) + new.models.flat_map(field_updates(old))
        + old.models.flat_map(field_deletes(new)) + old.models.filter_map(deleted_model(new))
        + old.enums.filter_map(deleted_enum(new))
}

impl TypeAlias {
    /// Whether two type aliases agree in every part.
    pub fn same(&self, other: &TypeAlias) -> (res: bool)
        ensures
            res == (self.deep_view() == other.deep_view()),
    {
        self.name == other.name && self.scalar == other.scalar && same_default(
            &self.default_value,
            &other.default_value,
        ) && self.is_unique == other.is_unique && self.is_id == other.is_id
    }
}

/// Whether a data model has the type alias as it is.
pub fn holds_alias(dm: &Datamodel, alias: &TypeAlias) -> (res: bool)
    ensures
        res == (dm.deep_view().type_alias(alias.name@) == Some(alias.deep_view())),
{
    match dm.type_alias(alias.name.as_str()) {
        Some(a) => a.same(alias),
        None => false,
    }
}

/// The step that updates a model, if its attributes changed.
pub fn update_of_model(old: &Model, new: &Model) -> (res: Option<MigrationStep>)
    ensures
        match res {
            Some(step) => !no_model_changes(model_changes(old.deep_view(), new.deep_view()))
                && step.deep_view() == (MigrationStepView::UpdateModel {
                model: new.name@,
                changes: model_changes(old.deep_view(), new.deep_view()),
            }),
            None => no_model_changes(model_changes(old.deep_view(), new.deep_view())),
        },
{
    let database_name = if same_optional_text(&old.database_name, &new.database_name) {
        None
    } else {
        Some(copy_optional_text(&new.database_name))
    };
    let indices = if same_index_definitions(&old.indices, &new.indices) {
        None
    } else {
        Some(copy_index_definitions(&new.indices))
    };
    let id_fields = if same_names(&old.id_fields, &new.id_fields) {
        None
    } else {
        Some(copy_names(&new.id_fields))
    };
    if database_name.is_none() && indices.is_none() && id_fields.is_none() {
        None
    } else {
        Some(
            MigrationStep::UpdateModel(
                UpdateModel { model: new.name.clone(), database_name, indices, id_fields },
            ),
        )
    }
}

/// The step that updates a field, if its attributes changed.
pub fn update_of_field(model: &String, old: &Field, new: &Field) -> (res: Option<MigrationStep>)
    ensures
        match res {
            Some(step) => !no_field_changes(field_changes(old.deep_view(), new.deep_view()))
                && step.deep_view() == (MigrationStepView::UpdateField {
                model: model@,
                field: new.name@,
                changes: field_changes(old.deep_view(), new.deep_view()),
            }),
            None => no_field_changes(field_changes(old.deep_view(), new.deep_view())),
        },
{
    let arity = if old.arity == new.arity {
        None
    } else {
        Some(new.arity)
    };
    let field_type = if old.field_type.same(&new.field_type) {
        None
    } else {
        Some(new.field_type.clone())
    };
    let database_name = if same_optional_text(&old.database_name, &new.database_name) {
        None
    } else {
        Some(copy_optional_text(&new.database_name))
    };
    let default_value = if same_default(&old.default_value, &new.default_value) {
        None
    } else {
        Some(copy_default(&new.default_value))
    };
    let is_unique = if old.is_unique == new.is_unique {
        None
    } else {
        Some(new.is_unique)
    };
    let is_id = if old.is_id == new.is_id {
        None
    } else {
        Some(new.is_id)
    };
    if arity.is_none() && field_type.is_none() && database_name.is_none()
        && default_value.is_none() && is_unique.is_none() && is_id.is_none() {
        None
    } else {
        Some(
            MigrationStep::UpdateField(
                UpdateField {
                    model: model.clone(),
                    field: new.name.clone(),
                    arity,
                    field_type,
                    database_name,
                    default_value,
                    is_unique,
                    is_id,
                },
            ),
        )
    }
}

/// Whether a list holds a field of that name.
pub fn has_field_named(fields: &Vec<Field>, name: &String) -> (res: bool)
    ensures
        res == (position_of(field_names(fields.deep_view()), name@) is Some),
{
    let ghost names = field_names(fields.deep_view());
    let mut i: usize = 0;
    while i < fields.len()
        invariant
            0 <= i <= fields.len(),
            names == field_names(fields.deep_view()),
            forall|j: int| 0 <= j < i ==> names[j] != name@,
        decreases fields.len() - i,
    {
        if fields[i].name == *name {
            proof {
                assert(names[i as int] == name@);
                lemma_position_of(names, name@);
            }
            return true;
        }
        assert(names[i as int] != name@);
        i += 1;
    }
    proof {
        lemma_position_of(names, name@);
    }
    false
}

/// The steps that create the fields which the old list lacks.
pub fn diff_created_fields(model: &String, old_fields: &Vec<Field>, new_fields: &Vec<Field>) -> (res:
    Vec<MigrationStep>)
    ensures
        res.deep_view() == new_fields.deep_view().filter_map(
            created_field(model@, old_fields.deep_view()),
        ),
{
    let ghost src = new_fields.deep_view();
    let ghost f = created_field(model@, old_fields.deep_view());
    let mut out: Vec<MigrationStep> = Vec::new();
    let mut i: usize = 0;
    while i < new_fields.len()
        invariant
            0 <= i <= new_fields.len(),
            src == new_fields.deep_view(),
            f == created_field(model@, old_fields.deep_view()),
            out.deep_view() == src.take(i as int).filter_map(f),
        decreases new_fields.len() - i,
    {
        let ghost before = out.deep_view();
        proof {
            src.lemma_filter_map_take_succ(f, i as int);
        }
        let field = &new_fields[i];
        if !has_field_named(old_fields, &field.name) {
            out.push(
                MigrationStep::CreateField(
                    CreateField { model: model.clone(), field: field.clone() },
                ),
            );
            assert(out.deep_view() =~= before.push(
                MigrationStepView::CreateField { model: model@, field: field.deep_view() },
            ));
        }
        i += 1;
    }
    assert(src.take(new_fields.len() as int) =~= src);
    out
}

/// The steps that update the fields which both models have.
pub fn diff_updated_fields(old: &Model, new: &Model) -> (res: Vec<MigrationStep>)
    ensures
        res.deep_view() == new.deep_view().fields.filter_map(
            updated_field(new.name@, old.deep_view()),
        ),
{
    let ghost src = new.deep_view().fields;
    let ghost f = updated_field(new.name@, old.deep_view());
    let mut out: Vec<MigrationStep> = Vec::new();
    let mut i: usize = 0;
    while i < new.fields.len()
        invariant
            0 <= i <= new.fields.len(),
            src == new.deep_view().fields,
            f == updated_field(new.name@, old.deep_view()),
            out.deep_view() == src.take(i as int).filter_map(f),
        decreases new.fields.len() - i,
    {
        let ghost before = out.deep_view();
        proof {
            src.lemma_filter_map_take_succ(f, i as int);
        }
        let field = &new.fields[i];
        match old.field(field.name.as_str()) {
            Some(g) => match update_of_field(&new.name, g, field) {
                Some(step) => {
                    let ghost shown = step.deep_view();
                    out.push(step);
                    assert(out.deep_view() =~= before.push(shown));
                },
                None => {},
            },
            None => {},
        }
        i += 1;
    }
    assert(src.take(new.fields.len() as int) =~= src);
    out
}

/// The steps that delete the fields which the new model lacks.
pub fn diff_deleted_fields(old: &Model, new: &Model) -> (res: Vec<MigrationStep>)
    ensures
        res.deep_view() == old.deep_view().fields.filter_map(
            deleted_field(old.name@, new.deep_view()),
        ),
{
    let ghost src = old.deep_view().fields;
    let ghost f = deleted_field(old.name@, new.deep_view());
    let mut out: Vec<MigrationStep> = Vec::new();
    let mut i: usize = 0;
    while i < old.fields.len()
        invariant
            0 <= i <= old.fields.len(),
            src == old.deep_view().fields,
            f == deleted_field(old.name@, new.deep_view()),
            out.deep_view() == src.take(i as int).filter_map(f),
        decreases old.fields.len() - i,
    {
        let ghost before = out.deep_view();
        proof {
            src.lemma_filter_map_take_succ(f, i as int);
        }
        let field = &old.fields[i];
        if new.field_position(field.name.as_str()).is_none() {
            out.push(
                MigrationStep::DeleteField(
                    DeleteField { model: old.name.clone(), field: field.name.clone() },
                ),
            );
            assert(out.deep_view() =~= before.push(
                MigrationStepView::DeleteField { model: old.name@, field: field.name@ },
            ));
        }
        i += 1;
    }
    assert(src.take(old.fields.len() as int) =~= src);
    out
}

/// The type aliases that go.
pub fn delete_aliases(old: &Datamodel, new: &Datamodel) -> (res: Vec<MigrationStep>)
    ensures
        res.deep_view() == old.deep_view().type_aliases.filter_map(deleted_alias(new.deep_view())),
{
    let ghost src = old.deep_view().type_aliases;
    let ghost f = deleted_alias(new.deep_view());
    let mut out: Vec<MigrationStep> = Vec::new();
    let mut i: usize = 0;
    while i < old.type_aliases.len()
        invariant
            0 <= i <= old.type_aliases.len(),
            src == old.deep_view().type_aliases,
            f == deleted_alias(new.deep_view()),
            out.deep_view() == src.take(i as int).filter_map(f),
        decreases old.type_aliases.len() - i,
    {
        let ghost before = out.deep_view();
        proof {
            src.lemma_filter_map_take_succ(f, i as int);
        }
        let x = &old.type_aliases[i];
        if !holds_alias(new, x) {
            out.push(MigrationStep::DeleteTypeAlias(DeleteTypeAlias { name: x.name.clone() }));
            assert(out.deep_view() =~= before.push(
                MigrationStepView::DeleteTypeAlias { name: x.name@ },
            ));
        }
        i += 1;
    }
    assert(src.take(old.type_aliases.len() as int) =~= src);
    out
}

/// The enums that come.
pub fn create_enums(old: &Datamodel, new: &Datamodel) -> (res: Vec<MigrationStep>)
    ensures
        res.deep_view() == new.deep_view().enums.filter_map(created_enum(old.deep_view())),
{
    let ghost src = new.deep_view().enums;
    let ghost f = created_enum(old.deep_view());
    let mut out: Vec<MigrationStep> = Vec::new();
    let mut i: usize = 0;
    while i < new.enums.len()
        invariant
            0 <= i <= new.enums.len(),
            src == new.deep_view().enums,
            f == created_enum(old.deep_view()),
            out.deep_view() == src.take(i as int).filter_map(f),
        decreases new.enums.len() - i,
    {
        let ghost before = out.deep_view();
        proof {
            src.lemma_filter_map_take_succ(f, i as int);
        }
        let x = &new.enums[i];
        if old.enum_position(x.name.as_str()).is_none() {
            out.push(
                MigrationStep::CreateEnum(
                    CreateEnum { name: x.name.clone(), values: copy_names(&x.values) },
                ),
            );
            assert(out.deep_view() =~= before.push(
                MigrationStepView::CreateEnum { name: x.name@, values: x.values.deep_view() },
            ));
        }
        i += 1;
    }
    assert(src.take(new.enums.len() as int) =~= src);
    out
}

/// The type aliases that come.
pub fn create_aliases(old: &Datamodel, new: &Datamodel) -> (res: Vec<MigrationStep>)
    ensures
        res.deep_view() == new.deep_view().type_aliases.filter_map(created_alias(old.deep_view())),
{
    let ghost src = new.deep_view().type_aliases;
    let ghost f = created_alias(old.deep_view());
    let mut out: Vec<MigrationStep> = Vec::new();
    let mut i: usize = 0;
    while i < new.type_aliases.len()
        invariant
            0 <= i <= new.type_aliases.len(),
            src == new.deep_view().type_aliases,
            f == created_alias(old.deep_view()),
            out.deep_view() == src.take(i as int).filter_map(f),
        decreases new.type_aliases.len() - i,
    {
        let ghost before = out.deep_view();
        proof {
            src.lemma_filter_map_take_succ(f, i as int);
        }
        let x = &new.type_aliases[i];
        if !holds_alias(old, x) {
            out.push(MigrationStep::CreateTypeAlias(CreateTypeAlias { alias: x.clone() }));
            assert(out.deep_view() =~= before.push(
                MigrationStepView::CreateTypeAlias { alias: x.deep_view() },
            ));
        }
        i += 1;
    }
    assert(src.take(new.type_aliases.len() as int) =~= src);
    out
}

/// The models that come, each without its fields.
pub fn create_models(old: &Datamodel, new: &Datamodel) -> (res: Vec<MigrationStep>)
    ensures
        res.deep_view() == new.deep_view().models.filter_map(created_model(old.deep_view())),
{
    let ghost src = new.deep_view().models;
    let ghost f = created_model(old.deep_view());
    let mut out: Vec<MigrationStep> = Vec::new();
    let mut i: usize = 0;
    while i < new.models.len()
        invariant
            0 <= i <= new.models.len(),
            src == new.deep_view().models,
            f == created_model(old.deep_view()),
            out.deep_view() == src.take(i as int).filter_map(f),
        decreases new.models.len() - i,
    {
        let ghost before = out.deep_view();
        proof {
            src.lemma_filter_map_take_succ(f, i as int);
        }
        let x = &new.models[i];
        if old.model_position(x.name.as_str()).is_none() {
            out.push(
                MigrationStep::CreateModel(
                    CreateModel {
                        model: x.name.clone(),
                        database_name: copy_optional_text(&x.database_name),
                        indices: copy_index_definitions(&x.indices),
                        id_fields: copy_names(&x.id_fields),
                    },
                ),
            );
            assert(out.deep_view() =~= before.push(
                MigrationStepView::CreateModel {
                    model: x.name@,
                    database_name: x.database_name.deep_view(),
                    indices: x.indices.deep_view(),
                    id_fields: x.id_fields.deep_view(),
                },
            ));
        }
        i += 1;
    }
    assert(src.take(new.models.len() as int) =~= src);
    out
}

/// The fields that come, model by model of the new side.
pub fn create_fields(old: &Datamodel, new: &Datamodel) -> (res: Vec<MigrationStep>)
    ensures
        res.deep_view() == new.deep_view().models.flat_map(field_creates(old.deep_view())),
{
    let ghost src = new.deep_view().models;
    let ghost f = field_creates(old.deep_view());
    let mut out: Vec<MigrationStep> = Vec::new();
    let mut i: usize = 0;
    while i < new.models.len()
        invariant
            0 <= i <= new.models.len(),
            src == new.deep_view().models,
            f == field_creates(old.deep_view()),
            out.deep_view() == src.take(i as int).flat_map(f),
        decreases new.models.len() - i,
    {
        let ghost before = out.deep_view();
        proof {
            src.lemma_flat_map_take_append(f, i as int);
        }
        let x = &new.models[i];
        let none: Vec<Field> = Vec::new();
        let present = match old.model(x.name.as_str()) {
            Some(o) => &o.fields,
            None => &none,
        };
        assert(present.deep_view() =~= fields_of(old.deep_view(), x.name@));
        append_migration_steps(&mut out, diff_created_fields(&x.name, present, &x.fields));
        i += 1;
    }
    assert(src.take(new.models.len() as int) =~= src);
    out
}

/// The enums whose values change.
pub fn update_enums(old: &Datamodel, new: &Datamodel) -> (res: Vec<MigrationStep>)
    ensures
        res.deep_view() == new.deep_view().enums.filter_map(updated_enum(old.deep_view())),
{
    let ghost src = new.deep_view().enums;
    let ghost f = updated_enum(old.deep_view());
    let mut out: Vec<MigrationStep> = Vec::new();
    let mut i: usize = 0;
    while i < new.enums.len()
        invariant
            0 <= i <= new.enums.len(),
            src == new.deep_view().enums,
            f == updated_enum(old.deep_view()),
            out.deep_view() == src.take(i as int).filter_map(f),
        decreases new.enums.len() - i,
    {
        let ghost before = out.deep_view();
        proof {
            src.lemma_filter_map_take_succ(f, i as int);
        }
        let x = &new.enums[i];
        match old.find_enum(x.name.as_str()) {
            Some(o) => {
                if !same_names(&o.values, &x.values) {
                    out.push(
                        MigrationStep::UpdateEnum(
                            UpdateEnum { name: x.name.clone(), values: copy_names(&x.values) },
                        ),
                    );
                    assert(out.deep_view() =~= before.push(
                        MigrationStepView::UpdateEnum {
                            name: x.name@,
                            values: x.values.deep_view(),
                        },
                    ));
                }
            },
            None => {},
        }
        i += 1;
    }
    assert(src.take(new.enums.len() as int) =~= src);
    out
}

/// The models whose attributes change.
pub fn update_models(old: &Datamodel, new: &Datamodel) -> (res: Vec<MigrationStep>)
    ensures
        res.deep_view() == new.deep_view().models.filter_map(updated_model(old.deep_view())),
{
    let ghost src = new.deep_view().models;
    let ghost f = updated_model(old.deep_view());
    let mut out: Vec<MigrationStep> = Vec::new();
    let mut i: usize = 0;
    while i < new.models.len()
        invariant
            0 <= i <= new.models.len(),
            src == new.deep_view().models,
            f == updated_model(old.deep_view()),
            out.deep_view() == src.take(i as int).filter_map(f),
        decreases new.models.len() - i,
    {
        let ghost before = out.deep_view();
        proof {
            src.lemma_filter_map_take_succ(f, i as int);
        }
        let x = &new.models[i];
        match old.model(x.name.as_str()) {
            Some(o) => match update_of_model(o, x) {
                Some(step) => {
                    let ghost shown = step.deep_view();
                    out.push(step);
                    assert(out.deep_view() =~= before.push(shown));
                },
                None => {},
            },
            None => {},
        }
        i += 1;
    }
    assert(src.take(new.models.len() as int) =~= src);
    out
}

/// The fields that change, model by model of the new side.
pub fn update_fields(old: &Datamodel, new: &Datamodel) -> (res: Vec<MigrationStep>)
    ensures
        res.deep_view() == new.deep_view().models.flat_map(field_updates(old.deep_view())),
{
    let ghost src = new.deep_view().models;
    let ghost f = field_updates(old.deep_view());
    let mut out: Vec<MigrationStep> = Vec::new();
    let mut i: usize = 0;
    while i < new.models.len()
        invariant
            0 <= i <= new.models.len(),
            src == new.deep_view().models,
            f == field_updates(old.deep_view()),
            out.deep_view() == src.take(i as int).flat_map(f),
        decreases new.models.len() - i,
    {
        let ghost before = out.deep_view();
        proof {
            src.lemma_flat_map_take_append(f, i as int);
        }
        let x = &new.models[i];
        match old.model(x.name.as_str()) {
            Some(o) => {
                append_migration_steps(&mut out, diff_updated_fields(o, x));
            },
            None => {
                assert(before + Seq::<MigrationStepView>::empty() =~= before);
            },
        }
        i += 1;
    }
    assert(src.take(new.models.len() as int) =~= src);
    out
}

/// The fields that go, model by model of the old side.
pub fn delete_fields(old: &Datamodel, new: &Datamodel) -> (res: Vec<MigrationStep>)
    ensures
        res.deep_view() == old.deep_view().models.flat_map(field_deletes(new.deep_view())),
{
    let ghost src = old.deep_view().models;
    let ghost f = field_deletes(new.deep_view());
    let mut out: Vec<MigrationStep> = Vec::new();
    let mut i: usize = 0;
    while i < old.models.len()
        invariant
            0 <= i <= old.models.len(),
            src == old.deep_view().models,
            f == field_deletes(new.deep_view()),
            out.deep_view() == src.take(i as int).flat_map(f),
        decreases old.models.len() - i,
    {
        let ghost before = out.deep_view();
        proof {
            src.lemma_flat_map_take_append(f, i as int);
        }
        let x = &old.models[i];
        match new.model(x.name.as_str()) {
            Some(m) => {
                append_migration_steps(&mut out, diff_deleted_fields(x, m));
            },
            None => {
                assert(before + Seq::<MigrationStepView>::empty() =~= before);
            },
        }
        i += 1;
    }
    assert(src.take(old.models.len() as int) =~= src);
    out
}

/// The models that go.
pub fn delete_models(old: &Datamodel, new: &Datamodel) -> (res: Vec<MigrationStep>)
    ensures
        res.deep_view() == old.deep_view().models.filter_map(deleted_model(new.deep_view())),
{
    let ghost src = old.deep_view().models;
    let ghost f = deleted_model(new.deep_view());
    let mut out: Vec<MigrationStep> = Vec::new();
    let mut i: usize = 0;
    while i < old.models.len()
        invariant
            0 <= i <= old.models.len(),
            src == old.deep_view().models,
            f == deleted_model(new.deep_view()),
            out.deep_view() == src.take(i as int).filter_map(f),
        decreases old.models.len() - i,
    {
        let ghost before = out.deep_view();
        proof {
            src.lemma_filter_map_take_succ(f, i as int);
        }
        let x = &old.models[i];
        if new.model_position(x.name.as_str()).is_none() {
            out.push(MigrationStep::DeleteModel(DeleteModel { model: x.name.clone() }));
            assert(out.deep_view() =~= before.push(
                MigrationStepView::DeleteModel { model: x.name@ },
            ));
        }
        i += 1;
    }
    assert(src.take(old.models.len() as int) =~= src);
    out
}

/// The enums that go.
pub fn delete_enums(old: &Datamodel, new: &Datamodel) -> (res: Vec<MigrationStep>)
    ensures
        res.deep_view() == old.deep_view().enums.filter_map(deleted_enum(new.deep_view())),
{
    let ghost src = old.deep_view().enums;
    let ghost f = deleted_enum(new.deep_view());
    let mut out: Vec<MigrationStep> = Vec::new();
    let mut i: usize = 0;
    while i < old.enums.len()
        invariant
            0 <= i <= old.enums.len(),
            src == old.deep_view().enums,
            f == deleted_enum(new.deep_view()),
            out.deep_view() == src.take(i as int).filter_map(f),
        decreases old.enums.len() - i,
    {
        let ghost before = out.deep_view();
        proof {
            src.lemma_filter_map_take_succ(f, i as int);
        }
        let x = &old.enums[i];
        if new.enum_position(x.name.as_str()).is_none() {
            out.push(MigrationStep::DeleteEnum(DeleteEnum { name: x.name.clone() }));
            assert(out.deep_view() =~= before.push(
                MigrationStepView::DeleteEnum { name: x.name@ },
            ));
        }
        i += 1;
    }
    assert(src.take(old.enums.len() as int) =~= src);
    out
}

/// The steps that lead from the old data model to the new one.
pub fn diff_datamodels(old: &Datamodel, new: &Datamodel) -> (res: Vec<MigrationStep>)
    ensures
        res.deep_view() == datamodel_diff(old.deep_view(), new.deep_view()),
{
    let mut out = delete_aliases(old, new);
    append_migration_steps(&mut out, create_enums(old, new));
    append_migration_steps(&mut out, create_aliases(old, new));
    append_migration_steps(&mut out, create_models(old, new));
    append_migration_steps(&mut out, create_fields(old, new));
    append_migration_steps(&mut out, update_enums(old, new));
    append_migration_steps(&mut out, update_models(old, new));
    append_migration_steps(&mut out, update_fields(old, new));
    append_migration_steps(&mut out, delete_fields(old, new));
    append_migration_steps(&mut out, delete_models(old, new));
    append_migration_steps(&mut out, delete_enums(old, new));
    out
}

} // verus!
