//! What holds of every comparison of two data models.

use vstd::prelude::*;
use crate::datamodel::{DatamodelView, ModelView, alias_names, enum_names, field_names, model_names};
use crate::datamodel_differ::{
    created_alias, created_enum, created_field, created_model, datamodel_diff, deleted_alias,
    deleted_enum, deleted_field, deleted_model, field_changes, field_creates, field_deletes,
    field_updates, fields_of, model_changes, no_field_changes, no_model_changes, updated_enum,
    updated_field, updated_model,
};
use crate::datamodel_steps::MigrationStepView;
use crate::seqs::{
    lemma_filter_map_nothing, lemma_filter_map_source, lemma_flat_map_nothing,
    lemma_flat_map_source, lemma_position_of_distinct,
};

verus! {

/// In a well-formed model each field is the one found under its name.
pub proof fn lemma_field_found(m: ModelView, i: int)
    requires
        m.wf(),
        0 <= i < m.fields.len(),
    ensures
        m.field(m.fields[i].name) == Some(m.fields[i]),
{
    lemma_position_of_distinct(field_names(m.fields), i);
}

/// In a well-formed data model each model is the one found under its name.
pub proof fn lemma_model_found(dm: DatamodelView, i: int)
    requires
        dm.wf(),
        0 <= i < dm.models.len(),
    ensures
        dm.model(dm.models[i].name) == Some(dm.models[i]),
{
    lemma_position_of_distinct(model_names(dm.models), i);
}

/// Comparing a well-formed data model with itself gives no step.
pub proof fn law_same_datamodel_needs_no_steps(dm: DatamodelView)
    requires
        dm.wf(),
    ensures
        datamodel_diff(dm, dm) == Seq::<MigrationStepView>::empty(),
{
    assert forall|i: int| 0 <= i < dm.type_aliases.len() implies deleted_alias(dm)(
        #[trigger] dm.type_aliases[i],
    ) is None && created_alias(dm)(dm.type_aliases[i]) is None by {
        lemma_position_of_distinct(alias_names(dm.type_aliases), i);
    }
    lemma_filter_map_nothing(dm.type_aliases, deleted_alias(dm));
    lemma_filter_map_nothing(dm.type_aliases, created_alias(dm));
    assert forall|i: int| 0 <= i < dm.enums.len() implies created_enum(dm)(
        #[trigger] dm.enums[i],
    ) is None && updated_enum(dm)(dm.enums[i]) is None && deleted_enum(dm)(dm.enums[i])
        is None by {
        lemma_position_of_distinct(enum_names(dm.enums), i);
    }
    lemma_filter_map_nothing(dm.enums, created_enum(dm));
    lemma_filter_map_nothing(dm.enums, updated_enum(dm));
    lemma_filter_map_nothing(dm.enums, deleted_enum(dm));
    assert forall|i: int| 0 <= i < dm.models.len() implies created_model(dm)(
        #[trigger] dm.models[i],
    ) is None && updated_model(dm)(dm.models[i]) is None && deleted_model(dm)(dm.models[i])
        is None && field_creates(dm)(dm.models[i]).len() == 0 && field_updates(dm)(
        dm.models[i],
    ).len() == 0 && field_deletes(dm)(dm.models[i]).len() == 0 by {
        let m = dm.models[i];
        lemma_model_found(dm, i);
        assert(m.wf());
        assert(no_model_changes(model_changes(m, m)));
        assert(fields_of(dm, m.name) == m.fields);
        assert forall|j: int| 0 <= j < m.fields.len() implies created_field(m.name, m.fields)(
            #[trigger] m.fields[j],
        ) is None && updated_field(m.name, m)(m.fields[j]) is None && deleted_field(m.name, m)(
            m.fields[j],
        ) is None by {
            lemma_field_found(m, j);
            assert(no_field_changes(field_changes(m.fields[j], m.fields[j])));
        }
        lemma_filter_map_nothing(m.fields, created_field(m.name, m.fields));
        lemma_filter_map_nothing(m.fields, updated_field(m.name, m));
        lemma_filter_map_nothing(m.fields, deleted_field(m.name, m));
    }
    lemma_filter_map_nothing(dm.models, created_model(dm));
    lemma_filter_map_nothing(dm.models, updated_model(dm));
    lemma_filter_map_nothing(dm.models, deleted_model(dm));
    lemma_flat_map_nothing(dm.models, field_creates(dm));
    lemma_flat_map_nothing(dm.models, field_updates(dm));
    lemma_flat_map_nothing(dm.models, field_deletes(dm));
}

/// The place of a step in the order of its kind: what goes first has the
/// lowest number.
pub open spec fn phase(step: MigrationStepView) -> int {
    match step {
        MigrationStepView::DeleteTypeAlias { .. } => 0,
        MigrationStepView::CreateEnum { .. } => 1,
        MigrationStepView::CreateTypeAlias { .. } => 2,
        MigrationStepView::CreateModel { .. } => 3,
        MigrationStepView::CreateField { .. } => 4,
        MigrationStepView::UpdateEnum { .. } => 5,
        MigrationStepView::UpdateModel { .. } => 6,
        MigrationStepView::UpdateField { .. } => 7,
        MigrationStepView::DeleteField { .. } => 8,
        MigrationStepView::DeleteModel { .. } => 9,
        MigrationStepView::DeleteEnum { .. } => 10,
    }
}

/// Every step of the list is of the kind with the number `k`.
pub open spec fn all_in_phase(steps: Seq<MigrationStepView>, k: int) -> bool {
    forall|i: int| 0 <= i < steps.len() ==> phase(#[trigger] steps[i]) == k
}

/// The steps stand in the order of their kinds, none later than `k`.
pub open spec fn in_phases_up_to(steps: Seq<MigrationStepView>, k: int) -> bool {
    &&& forall|i: int| 0 <= i < steps.len() ==> phase(#[trigger] steps[i]) <= k
    &&& forall|i: int, j: int|
        0 <= i < j < steps.len() ==> phase(#[trigger] steps[i]) <= phase(#[trigger] steps[j])
}

proof fn lemma_filter_map_phase<A>(
    s: Seq<A>,
    f: spec_fn(A) -> Option<MigrationStepView>,
    k: int,
)
    requires
        forall|i: int| 0 <= i < s.len() && f(#[trigger] s[i]) is Some ==> phase(f(s[i])->0) == k,
    ensures
        all_in_phase(s.filter_map(f), k),
{
    let out = s.filter_map(f);
    assert forall|i: int| 0 <= i < out.len() implies phase(#[trigger] out[i]) == k by {
        assert(out.contains(out[i]));
        let at = lemma_filter_map_source(s, f, out[i]);
    }
}

proof fn lemma_flat_map_phase<A>(s: Seq<A>, f: spec_fn(A) -> Seq<MigrationStepView>, k: int)
    requires
        forall|i: int| 0 <= i < s.len() ==> all_in_phase(f(#[trigger] s[i]), k),
    ensures
        all_in_phase(s.flat_map(f), k),
{
    let out = s.flat_map(f);
    assert forall|i: int| 0 <= i < out.len() implies phase(#[trigger] out[i]) == k by {
        assert(out.contains(out[i]));
        let at = lemma_flat_map_source(s, f, out[i]);
        let own = f(s[at]);
        let j = choose|j: int| 0 <= j < own.len() && own[j] == out[i];
        assert(phase(own[j]) == k);
    }
}

proof fn lemma_next_phase(steps: Seq<MigrationStepView>, more: Seq<MigrationStepView>, k: int)
    requires
        in_phases_up_to(steps, k - 1),
        all_in_phase(more, k),
    ensures
        in_phases_up_to(steps + more, k),
{
    let all = steps + more;
    assert forall|i: int| 0 <= i < all.len() implies phase(#[trigger] all[i]) <= k by {
        if i < steps.len() {
            assert(all[i] == steps[i]);
        } else {
            assert(all[i] == more[i - steps.len()]);
        }
    }
    assert forall|i: int, j: int| 0 <= i < j < all.len() implies phase(#[trigger] all[i])
        <= phase(#[trigger] all[j]) by {
        if j < steps.len() {
            assert(all[i] == steps[i]);
            assert(all[j] == steps[j]);
        } else if i < steps.len() {
            assert(all[i] == steps[i]);
            assert(all[j] == more[j - steps.len()]);
        } else {
            assert(all[i] == more[i - steps.len()]);
            assert(all[j] == more[j - steps.len()]);
        }
    }
}

/// The steps of a comparison stand in the order of their kinds.
pub proof fn law_steps_come_in_phases(old: DatamodelView, new: DatamodelView, i: int, j: int)
    requires
        0 <= i < j < datamodel_diff(old, new).len(),
    ensures
        phase(datamodel_diff(old, new)[i]) <= phase(datamodel_diff(old, new)[j]),
{
    let s0 = old.type_aliases.filter_map(deleted_alias(new));
    let s1 = new.enums.filter_map(created_enum(old));
    let s2 = new.type_aliases.filter_map(created_alias(old));
    let s3 = new.models.filter_map(created_model(old));
    let s4 = new.models.flat_map(field_creates(old));
    let s5 = new.enums.filter_map(updated_enum(old));
    let s6 = new.models.filter_map(updated_model(old));
    let s7 = new.models.flat_map(field_updates(old));
    let s8 = old.models.flat_map(field_deletes(new));
    let s9 = old.models.filter_map(deleted_model(new));
    let s10 = old.enums.filter_map(deleted_enum(new));
    lemma_filter_map_phase(old.type_aliases, deleted_alias(new), 0);
    lemma_filter_map_phase(new.enums, created_enum(old), 1);
    lemma_filter_map_phase(new.type_aliases, created_alias(old), 2);
    lemma_filter_map_phase(new.models, created_model(old), 3);
    assert forall|k: int| 0 <= k < new.models.len() implies all_in_phase(
        field_creates(old)(#[trigger] new.models[k]),
        4,
    ) by {
        let m = new.models[k];
        lemma_filter_map_phase(m.fields, created_field(m.name, fields_of(old, m.name)), 4);
    }
    lemma_flat_map_phase(new.models, field_creates(old), 4);
    lemma_filter_map_phase(new.enums, updated_enum(old), 5);
    lemma_filter_map_phase(new.models, updated_model(old), 6);
    assert forall|k: int| 0 <= k < new.models.len() implies all_in_phase(
        field_updates(old)(#[trigger] new.models[k]),
        7,
    ) by {
        let m = new.models[k];
        match old.model(m.name) {
            Some(o) => {
                lemma_filter_map_phase(m.fields, updated_field(m.name, o), 7);
            },
            None => {},
        }
    }
    lemma_flat_map_phase(new.models, field_updates(old), 7);
    assert forall|k: int| 0 <= k < old.models.len() implies all_in_phase(
        field_deletes(new)(#[trigger] old.models[k]),
        8,
    ) by {
        let o = old.models[k];
        match new.model(o.name) {
            Some(m) => {
                lemma_filter_map_phase(o.fields, deleted_field(o.name, m), 8);
            },
            None => {},
        }
    }
    lemma_flat_map_phase(old.models, field_deletes(new), 8);
    lemma_filter_map_phase(old.models, deleted_model(new), 9);
    lemma_filter_map_phase(old.enums, deleted_enum(new), 10);
    assert(in_phases_up_to(s0, 0));
    lemma_next_phase(s0, s1, 1);
    lemma_next_phase(s0 + s1, s2, 2);
    lemma_next_phase(s0 + s1 + s2, s3, 3);
    lemma_next_phase(s0 + s1 + s2 + s3, s4, 4);
    lemma_next_phase(s0 + s1 + s2 + s3 + s4, s5, 5);
    lemma_next_phase(s0 + s1 + s2 + s3 + s4 + s5, s6, 6);
    lemma_next_phase(s0 + s1 + s2 + s3 + s4 + s5 + s6, s7, 7);
    lemma_next_phase(s0 + s1 + s2 + s3 + s4 + s5 + s6 + s7, s8, 8);
    lemma_next_phase(s0 + s1 + s2 + s3 + s4 + s5 + s6 + s7 + s8, s9, 9);
    lemma_next_phase(s0 + s1 + s2 + s3 + s4 + s5 + s6 + s7 + s8 + s9, s10, 10);
}

/// What a field refers to is created before the field: every step that
/// creates a model or an enum stands before every step that creates a
/// field.
pub proof fn law_models_and_enums_come_before_fields(
    old: DatamodelView,
    new: DatamodelView,
    i: int,
    j: int,
)
    requires
        0 <= i < datamodel_diff(old, new).len(),
        0 <= j < datamodel_diff(old, new).len(),
        datamodel_diff(old, new)[i] is CreateModel || datamodel_diff(old, new)[i] is CreateEnum,
        datamodel_diff(old, new)[j] is CreateField,
    ensures
        i < j,
{
    if j < i {
        law_steps_come_in_phases(old, new, j, i);
    }
}

} // verus!
