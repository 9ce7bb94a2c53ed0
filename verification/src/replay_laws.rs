//! Replaying what was inferred.

use vstd::prelude::*;
use crate::api::empty_datamodel;
use crate::datamodel::{
    DatamodelView, EnumView, FieldView, ModelView, TypeAliasView, alias_names, enum_names,
    field_names, model_names,
};
use crate::datamodel_apply::{StepErrorView, applied, applied_step, with_model};
use crate::datamodel_differ::{
    created_alias, created_enum, created_field, created_model, datamodel_diff, deleted_alias,
    deleted_enum, deleted_model, field_creates, field_deletes, field_updates, fields_of,
    updated_enum, updated_model,
};
use crate::datamodel_steps::MigrationStepView;
use crate::seqs::{
    lemma_filter_map_nothing, lemma_flat_map_nothing, lemma_position_of, position_of,
};

verus! {

/// Applying two lists of steps one after the other is applying them as one.
pub proof fn lemma_applied_in_parts(
    dm: DatamodelView,
    first: Seq<MigrationStepView>,
    second: Seq<MigrationStepView>,
)
    ensures
        applied(dm, first + second) == match applied(dm, first) {
            Ok(between) => applied(between, second),
            Err(e) => Err(e),
        },
    decreases second.len(),
{
    if second.len() == 0 {
        assert(first + second =~= first);
    } else {
        lemma_applied_in_parts(dm, first, second.drop_last());
        assert((first + second).drop_last() =~= first + second.drop_last());
        assert((first + second).last() == second.last());
    }
}

/// Applying one step is applying the list that holds it alone.
proof fn lemma_applied_one(dm: DatamodelView, step: MigrationStepView)
    ensures
        applied(dm, seq![step]) == applied_step(dm, step),
{
    let one = seq![step];
    assert(one.drop_last().len() == 0);
    assert(applied(dm, one.drop_last()) == Ok::<DatamodelView, StepErrorView>(dm));
    assert(one.last() == step);
}

/// A model with none of its fields is the model without fields, and with
/// all of them it is the model.
proof fn lemma_fields_taken(m: ModelView)
    ensures
        (ModelView { fields: m.fields.take(0), ..m }) == bare(m),
        (ModelView { fields: m.fields.take(m.fields.len() as int), ..m }) == m,
{
    assert(m.fields.take(0) =~= Seq::<FieldView>::empty());
    assert(m.fields.take(m.fields.len() as int) =~= m.fields);
}

/// A name that stands at `k` in a list without duplicates does not stand
/// before `k`.
proof fn lemma_not_before<A>(names: Seq<A>, k: int)
    requires
        names.no_duplicates(),
        0 <= k < names.len(),
    ensures
        position_of(names.take(k), names[k]) is None,
{
    lemma_position_of(names.take(k), names[k]);
    if position_of(names.take(k), names[k]) is Some {
        let p = position_of(names.take(k), names[k])->0;
        assert(names.take(k)[p] == names[p]);
    }
}

/// A model without its fields.
pub open spec fn bare(model: ModelView) -> ModelView {
    ModelView { fields: Seq::empty(), ..model }
}

/// The data model on the way to `new`: the enums up to `e`, the type
/// aliases up to `a`, and the models up to `m` without their fields.
pub open spec fn begun(new: DatamodelView, e: int, a: int, m: int) -> DatamodelView {
    DatamodelView {
        models: Seq::new(m as nat, |x: int| bare(new.models[x])),
        enums: new.enums.take(e),
        type_aliases: new.type_aliases.take(a),
    }
}

/// The data model on the way to `new`: all models are there, those before
/// `i` with all their fields, the one at `i` with its first `j` fields, the
/// ones after it without fields.
pub open spec fn filled(new: DatamodelView, i: int, j: int) -> DatamodelView {
    DatamodelView {
        models: Seq::new(
            new.models.len(),
            |x: int|
                if x < i {
                    new.models[x]
                } else if x == i {
                    ModelView { fields: new.models[x].fields.take(j), ..new.models[x] }
                } else {
                    bare(new.models[x])
                },
        ),
        enums: new.enums,
        type_aliases: new.type_aliases,
    }
}

proof fn lemma_enums_created(new: DatamodelView, k: int)
    requires
        new.wf(),
        0 <= k <= new.enums.len(),
    ensures
        applied(
            empty_datamodel(),
            new.enums.take(k).filter_map(created_enum(empty_datamodel())),
        ) == Ok::<DatamodelView, StepErrorView>(begun(new, k, 0, 0)),
    decreases k,
{
    let f = created_enum(empty_datamodel());
    if k == 0 {
        assert(new.enums.take(0).filter_map(f) =~= Seq::<MigrationStepView>::empty());
        assert(begun(new, 0, 0, 0).models =~= empty_datamodel().models);
        assert(begun(new, 0, 0, 0).enums =~= empty_datamodel().enums);
        assert(begun(new, 0, 0, 0).type_aliases =~= empty_datamodel().type_aliases);
    } else {
        lemma_enums_created(new, k - 1);
        new.enums.lemma_filter_map_take_succ(f, k - 1);
        let e = new.enums[k - 1];
        let step = MigrationStepView::CreateEnum { name: e.name, values: e.values };
        lemma_position_of(enum_names(empty_datamodel().enums), e.name);
        assert(f(e) == Some(step));
        let before = new.enums.take(k - 1).filter_map(f);
        lemma_applied_in_parts(empty_datamodel(), before, seq![step]);
        let state = begun(new, k - 1, 0, 0);
        lemma_applied_one(state, step);
        assert(enum_names(state.enums) =~= enum_names(new.enums).take(k - 1));
        lemma_not_before(enum_names(new.enums), k - 1);
        assert(!state.has_enum(e.name));
        assert(applied_step(state, step)->Ok_0.enums =~= new.enums.take(k));
        assert(applied_step(state, step)->Ok_0.models =~= begun(new, k, 0, 0).models);
    }
}

proof fn lemma_aliases_created(new: DatamodelView, k: int)
    requires
        new.wf(),
        0 <= k <= new.type_aliases.len(),
    ensures
        applied(
            begun(new, new.enums.len() as int, 0, 0),
            new.type_aliases.take(k).filter_map(created_alias(empty_datamodel())),
        ) == Ok::<DatamodelView, StepErrorView>(begun(new, new.enums.len() as int, k, 0)),
    decreases k,
{
    let f = created_alias(empty_datamodel());
    let start = begun(new, new.enums.len() as int, 0, 0);
    if k == 0 {
        assert(new.type_aliases.take(0).filter_map(f) =~= Seq::<MigrationStepView>::empty());
    } else {
        lemma_aliases_created(new, k - 1);
        new.type_aliases.lemma_filter_map_take_succ(f, k - 1);
        let a = new.type_aliases[k - 1];
        let step = MigrationStepView::CreateTypeAlias { alias: a };
        lemma_position_of(alias_names(empty_datamodel().type_aliases), a.name);
        assert(f(a) == Some(step));
        let before = new.type_aliases.take(k - 1).filter_map(f);
        lemma_applied_in_parts(start, before, seq![step]);
        let state = begun(new, new.enums.len() as int, k - 1, 0);
        lemma_applied_one(state, step);
        assert(alias_names(state.type_aliases) =~= alias_names(new.type_aliases).take(k - 1));
        lemma_not_before(alias_names(new.type_aliases), k - 1);
        assert(!state.has_type_alias(a.name));
        assert(applied_step(state, step)->Ok_0.type_aliases =~= new.type_aliases.take(k));
    }
}

proof fn lemma_models_created(new: DatamodelView, k: int)
    requires
        new.wf(),
        0 <= k <= new.models.len(),
    ensures
        applied(
            begun(new, new.enums.len() as int, new.type_aliases.len() as int, 0),
            new.models.take(k).filter_map(created_model(empty_datamodel())),
        ) == Ok::<DatamodelView, StepErrorView>(
            begun(new, new.enums.len() as int, new.type_aliases.len() as int, k),
        ),
    decreases k,
{
    let f = created_model(empty_datamodel());
    let e = new.enums.len() as int;
    let a = new.type_aliases.len() as int;
    let start = begun(new, e, a, 0);
    if k == 0 {
        assert(new.models.take(0).filter_map(f) =~= Seq::<MigrationStepView>::empty());
    } else {
        lemma_models_created(new, k - 1);
        new.models.lemma_filter_map_take_succ(f, k - 1);
        let m = new.models[k - 1];
        let step = MigrationStepView::CreateModel {
            model: m.name,
            database_name: m.database_name,
            indices: m.indices,
            id_fields: m.id_fields,
        };
        lemma_position_of(model_names(empty_datamodel().models), m.name);
        assert(f(m) == Some(step));
        let before = new.models.take(k - 1).filter_map(f);
        lemma_applied_in_parts(start, before, seq![step]);
        let state = begun(new, e, a, k - 1);
        lemma_applied_one(state, step);
        assert(model_names(state.models) =~= model_names(new.models).take(k - 1));
        lemma_not_before(model_names(new.models), k - 1);
        assert(!state.has_model(m.name));
        assert(applied_step(state, step)->Ok_0.models =~= begun(new, e, a, k).models);
    }
}

proof fn lemma_fields_of_model_created(new: DatamodelView, i: int, j: int)
    requires
        new.wf(),
        0 <= i < new.models.len(),
        0 <= j <= new.models[i].fields.len(),
    ensures
        applied(
            filled(new, i, 0),
            new.models[i].fields.take(j).filter_map(
                created_field(new.models[i].name, Seq::<FieldView>::empty()),
            ),
        ) == Ok::<DatamodelView, StepErrorView>(filled(new, i, j)),
    decreases j,
{
    let m = new.models[i];
    let f = created_field(m.name, Seq::<FieldView>::empty());
    let start = filled(new, i, 0);
    if j == 0 {
        assert(m.fields.take(0).filter_map(f) =~= Seq::<MigrationStepView>::empty());
    } else {
        lemma_fields_of_model_created(new, i, j - 1);
        m.fields.lemma_filter_map_take_succ(f, j - 1);
        let field = m.fields[j - 1];
        let step = MigrationStepView::CreateField { model: m.name, field: field };
        lemma_position_of(field_names(Seq::<FieldView>::empty()), field.name);
        assert(f(field) == Some(step));
        let before = m.fields.take(j - 1).filter_map(f);
        lemma_applied_in_parts(start, before, seq![step]);
        let state = filled(new, i, j - 1);
        lemma_applied_one(state, step);
        assert(model_names(state.models) =~= model_names(new.models));
        crate::seqs::lemma_position_of_distinct(model_names(new.models), i);
        assert(position_of(model_names(state.models), m.name) == Some(i));
        assert(m.wf());
        assert(state.models[i].fields == m.fields.take(j - 1));
        assert(field_names(state.models[i].fields) =~= field_names(m.fields).take(j - 1));
        lemma_not_before(field_names(m.fields), j - 1);
        assert(!state.models[i].has_field(field.name));
        let grown = ModelView { fields: state.models[i].fields.push(field), ..state.models[i] };
        assert(state.models[i].fields.push(field) =~= m.fields.take(j));
        assert(applied_step(state, step) == Ok::<DatamodelView, StepErrorView>(
            with_model(state, i, grown),
        ));
        assert(with_model(state, i, grown).models =~= filled(new, i, j).models);
    }
}

proof fn lemma_fields_created(new: DatamodelView, i: int)
    requires
        new.wf(),
        0 <= i <= new.models.len(),
    ensures
        applied(
            filled(new, 0, 0),
            new.models.take(i).flat_map(field_creates(empty_datamodel())),
        ) == Ok::<DatamodelView, StepErrorView>(filled(new, i, 0)),
    decreases i,
{
    let f = field_creates(empty_datamodel());
    if i == 0 {
        assert(new.models.take(0).map_values(f) =~= Seq::<Seq<MigrationStepView>>::empty());
        assert(new.models.take(0).flat_map(f) =~= Seq::<MigrationStepView>::empty());
    } else {
        lemma_fields_created(new, i - 1);
        new.models.lemma_flat_map_take_append(f, i - 1);
        let m = new.models[i - 1];
        lemma_position_of(model_names(empty_datamodel().models), m.name);
        assert(fields_of(empty_datamodel(), m.name) =~= Seq::<FieldView>::empty());
        let own = m.fields.filter_map(created_field(m.name, Seq::<FieldView>::empty()));
        assert(f(m) == own);
        lemma_applied_in_parts(
            filled(new, 0, 0),
            new.models.take(i - 1).flat_map(f),
            own,
        );
        lemma_fields_of_model_created(new, i - 1, m.fields.len() as int);
        assert(m.fields.take(m.fields.len() as int) =~= m.fields);
        assert forall|x: int| 0 <= x < new.models.len() implies filled(
            new,
            i - 1,
            m.fields.len() as int,
        ).models[x] == filled(new, i, 0).models[x] by {
            lemma_fields_taken(new.models[x]);
        }
        assert(filled(new, i - 1, m.fields.len() as int).models =~= filled(new, i, 0).models);
        assert(filled(new, i - 1, m.fields.len() as int) == filled(new, i, 0));
    }
}

/// Replaying the steps that were inferred from nothing rebuilds the data
/// model: for every well-formed data model, the steps from the empty data
/// model to it, applied to the empty data model, give it back.
pub proof fn law_replay_rebuilds_the_datamodel(new: DatamodelView)
    requires
        new.wf(),
    ensures
        applied(empty_datamodel(), datamodel_diff(empty_datamodel(), new)) == Ok::<
            DatamodelView,
            StepErrorView,
        >(new),
{
    let old = empty_datamodel();
    let none = Seq::<MigrationStepView>::empty();
    let s1 = new.enums.filter_map(created_enum(old));
    let s2 = new.type_aliases.filter_map(created_alias(old));
    let s3 = new.models.filter_map(created_model(old));
    let s4 = new.models.flat_map(field_creates(old));
    lemma_filter_map_nothing(old.type_aliases, deleted_alias(new));
    assert forall|i: int| 0 <= i < new.enums.len() implies updated_enum(old)(
        #[trigger] new.enums[i],
    ) is None by {
        lemma_position_of(enum_names(old.enums), new.enums[i].name);
    }
    lemma_filter_map_nothing(new.enums, updated_enum(old));
    assert forall|i: int| 0 <= i < new.models.len() implies updated_model(old)(
        #[trigger] new.models[i],
    ) is None && field_updates(old)(new.models[i]).len() == 0 by {
        lemma_position_of(model_names(old.models), new.models[i].name);
    }
    lemma_filter_map_nothing(new.models, updated_model(old));
    lemma_flat_map_nothing(new.models, field_updates(old));
    lemma_flat_map_nothing(old.models, field_deletes(new));
    lemma_filter_map_nothing(old.models, deleted_model(new));
    lemma_filter_map_nothing(old.enums, deleted_enum(new));
    assert(datamodel_diff(old, new) =~= s1 + s2 + s3 + s4);
    let e = new.enums.len() as int;
    let a = new.type_aliases.len() as int;
    let n = new.models.len() as int;
    lemma_enums_created(new, e);
    assert(new.enums.take(e) =~= new.enums);
    lemma_aliases_created(new, a);
    assert(new.type_aliases.take(a) =~= new.type_aliases);
    lemma_models_created(new, n);
    assert(new.models.take(n) =~= new.models);
    lemma_fields_created(new, n);
    lemma_applied_in_parts(old, s1, s2);
    lemma_applied_in_parts(old, s1 + s2, s3);
    lemma_applied_in_parts(old, s1 + s2 + s3, s4);
    assert forall|x: int| 0 <= x < n implies begun(new, e, a, n).models[x] == filled(
        new,
        0,
        0,
    ).models[x] by {
        lemma_fields_taken(new.models[x]);
    }
    assert(begun(new, e, a, n).models =~= filled(new, 0, 0).models);
    assert(begun(new, e, a, n) == filled(new, 0, 0));
    assert(filled(new, n, 0).models =~= new.models);
    assert(filled(new, n, 0) == new);
}

} // verus!
