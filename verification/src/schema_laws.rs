//! What holds of every comparison of two schemas.

use vstd::prelude::*;
use crate::schema::{ForeignKeyView, IndexView, SchemaView, TableView, column_names, table_names};
use crate::schema_differ::{
    added_column, altered_column, altered_table, column_changes, created_index, created_key,
    created_table, dropped_column, dropped_index, dropped_key, dropped_table, index_creates,
    free_twin, free_twins, index_drops, index_renames, indices_of, is_present_key,
    is_rename_target, is_wanted_key, key_creates, key_drops, key_matches, keys_of, rename_target,
    renamed_index, same_shape, schema_diff,
};
use crate::seqs::{
    lemma_filter_map_holds, lemma_filter_map_nothing, lemma_filter_nothing, lemma_filter_same,
    lemma_flat_map_nothing, lemma_position_of_distinct,
};
use crate::steps::{StepView, TableChangeView};

verus! {

/// Two lists of foreign keys of one length in which each present key meets
/// the wanted key at its place.
pub open spec fn keys_agree(desired: Seq<ForeignKeyView>, actual: Seq<ForeignKeyView>) -> bool {
    &&& desired.len() == actual.len()
    &&& forall|j: int| 0 <= j < desired.len() ==> key_matches(#[trigger] desired[j], actual[j])
}

/// Two tables of one name with the same columns and indices, whose foreign
/// keys agree.
pub open spec fn tables_agree(desired: TableView, actual: TableView) -> bool {
    &&& desired.name == actual.name
    &&& desired.columns == actual.columns
    &&& desired.indices == actual.indices
    &&& keys_agree(desired.foreign_keys, actual.foreign_keys)
}

/// Two schemas with the same tables in the same order, each agreeing with
/// the one at its place: the present schema has the structure that is
/// wanted, whatever names its foreign key constraints were given.
pub open spec fn schemas_agree(desired: SchemaView, actual: SchemaView) -> bool {
    &&& desired.tables.len() == actual.tables.len()
    &&& forall|i: int|
        0 <= i < desired.tables.len() ==> tables_agree(#[trigger] desired.tables[i], actual.tables[i])
}

/// In a well-formed table each column is the one found under its name.
pub proof fn lemma_column_found(t: TableView, i: int)
    requires
        t.wf(),
        0 <= i < t.columns.len(),
    ensures
        t.column(t.columns[i].name) == Some(t.columns[i]),
{
    lemma_position_of_distinct(column_names(t.columns), i);
}

/// In a well-formed schema each table is the one found under its name.
pub proof fn lemma_table_found(s: SchemaView, i: int)
    requires
        s.wf(),
        0 <= i < s.tables.len(),
    ensures
        s.table(s.tables[i].name) == Some(s.tables[i]),
{
    lemma_position_of_distinct(table_names(s.tables), i);
}

/// A well-formed table needs no column changes to become a table with the
/// same columns.
pub proof fn lemma_no_column_changes(desired: TableView, actual: TableView)
    requires
        desired.wf(),
        actual.wf(),
        desired.columns == actual.columns,
    ensures
        column_changes(desired, actual) == Seq::<TableChangeView>::empty(),
{
    assert forall|i: int| 0 <= i < actual.columns.len() implies dropped_column(desired)(
        #[trigger] actual.columns[i],
    ) is None by {
        lemma_column_found(desired, i);
    }
    lemma_filter_map_nothing(actual.columns, dropped_column(desired));
    assert forall|i: int| 0 <= i < desired.columns.len() implies added_column(actual)(
        #[trigger] desired.columns[i],
    ) is None by {
        lemma_column_found(actual, i);
    }
    lemma_filter_map_nothing(desired.columns, added_column(actual));
    assert forall|i: int| 0 <= i < desired.columns.len() implies altered_column(actual)(
        #[trigger] desired.columns[i],
    ) is None by {
        lemma_column_found(actual, i);
    }
    lemma_filter_map_nothing(desired.columns, altered_column(actual));
}

/// Where the present indices of a table are the wanted ones, none is
/// dropped, renamed or created.
pub proof fn lemma_no_index_steps(table: Seq<char>, indices: Seq<IndexView>)
    ensures
        indices.filter_map(dropped_index(table, indices, indices)) == Seq::<StepView>::empty(),
        indices.filter_map(renamed_index(table, indices, indices)) == Seq::<StepView>::empty(),
        indices.filter_map(created_index(table, indices, indices)) == Seq::<StepView>::empty(),
{
    assert forall|i: int| 0 <= i < indices.len() implies dropped_index(
        table,
        indices,
        indices,
    )(#[trigger] indices[i]) is None by {
        assert(indices.contains(indices[i]));
    }
    lemma_filter_map_nothing(indices, dropped_index(table, indices, indices));
    assert forall|i: int| 0 <= i < indices.len() implies renamed_index(
        table,
        indices,
        indices,
    )(#[trigger] indices[i]) is None by {
        assert(indices.contains(indices[i]));
        assert(rename_target(indices[i], indices, indices) is None);
    }
    lemma_filter_map_nothing(indices, renamed_index(table, indices, indices));
    assert forall|i: int| 0 <= i < indices.len() implies created_index(
        table,
        indices,
        indices,
    )(#[trigger] indices[i]) is None by {
        assert(indices.contains(indices[i]));
    }
    lemma_filter_map_nothing(indices, created_index(table, indices, indices));
}

/// Where the foreign keys of two tables agree, none is dropped or created.
pub proof fn lemma_no_key_steps(
    table: Seq<char>,
    desired: Seq<ForeignKeyView>,
    actual: Seq<ForeignKeyView>,
)
    requires
        keys_agree(desired, actual),
    ensures
        actual.filter_map(dropped_key(table, desired)) == Seq::<StepView>::empty(),
        desired.filter_map(created_key(table, actual)) == Seq::<StepView>::empty(),
{
    assert forall|i: int| 0 <= i < actual.len() implies dropped_key(table, desired)(
        #[trigger] actual[i],
    ) is None by {
        assert(key_matches(desired[i], actual[i]));
        assert(is_wanted_key(actual[i], desired));
    }
    lemma_filter_map_nothing(actual, dropped_key(table, desired));
    assert forall|i: int| 0 <= i < desired.len() implies created_key(table, actual)(
        #[trigger] desired[i],
    ) is None by {
        assert(key_matches(desired[i], actual[i]));
        assert(is_present_key(desired[i], actual));
    }
    lemma_filter_map_nothing(desired, created_key(table, actual));
}

/// Planning against a database that already has the wanted structure gives
/// no step: where both schemas are well formed and agree table by table,
/// their difference is empty. This holds whatever names the present foreign
/// key constraints carry, as long as the wanted keys name none.
pub proof fn law_agreeing_schemas_need_no_steps(desired: SchemaView, actual: SchemaView)
    requires
        desired.wf(),
        actual.wf(),
        schemas_agree(desired, actual),
    ensures
        schema_diff(desired, actual) == Seq::<StepView>::empty(),
{
    let n = desired.tables.len();
    assert(table_names(desired.tables) =~= table_names(actual.tables)) by {
        assert forall|i: int| 0 <= i < n implies table_names(desired.tables)[i] == table_names(
            actual.tables,
        )[i] by {
            assert(tables_agree(desired.tables[i], actual.tables[i]));
        }
    }
    assert forall|i: int| 0 <= i < n implies desired.table(actual.tables[i].name) == Some(
        desired.tables[i],
    ) && actual.table(desired.tables[i].name) == Some(actual.tables[i]) by {
        assert(tables_agree(desired.tables[i], actual.tables[i]));
        lemma_table_found(desired, i);
        lemma_table_found(actual, i);
    }
    assert forall|i: int| 0 <= i < n implies key_drops(desired)(#[trigger] actual.tables[i]).len()
        == 0 by {
        assert(tables_agree(desired.tables[i], actual.tables[i]));
        assert(keys_of(desired, actual.tables[i].name) == desired.tables[i].foreign_keys);
        lemma_no_key_steps(
            actual.tables[i].name,
            desired.tables[i].foreign_keys,
            actual.tables[i].foreign_keys,
        );
    }
    lemma_flat_map_nothing(actual.tables, key_drops(desired));
    assert forall|i: int| 0 <= i < n implies index_drops(desired)(
        #[trigger] actual.tables[i],
    ).len() == 0 by {
        assert(tables_agree(desired.tables[i], actual.tables[i]));
        lemma_no_index_steps(actual.tables[i].name, actual.tables[i].indices);
    }
    lemma_flat_map_nothing(actual.tables, index_drops(desired));
    assert forall|i: int| 0 <= i < n implies dropped_table(desired)(
        #[trigger] actual.tables[i],
    ) is None by {}
    lemma_filter_map_nothing(actual.tables, dropped_table(desired));
    assert forall|i: int| 0 <= i < n implies created_table(actual)(
        #[trigger] desired.tables[i],
    ) is None by {}
    lemma_filter_map_nothing(desired.tables, created_table(actual));
    assert forall|i: int| 0 <= i < n implies altered_table(actual)(
        #[trigger] desired.tables[i],
    ) is None by {
        assert(tables_agree(desired.tables[i], actual.tables[i]));
        lemma_no_column_changes(desired.tables[i], actual.tables[i]);
    }
    lemma_filter_map_nothing(desired.tables, altered_table(actual));
    assert forall|i: int| 0 <= i < n implies index_creates(actual)(
        #[trigger] desired.tables[i],
    ).len() == 0 by {
        assert(tables_agree(desired.tables[i], actual.tables[i]));
        assert(indices_of(actual, desired.tables[i].name) == desired.tables[i].indices);
        lemma_no_index_steps(desired.tables[i].name, desired.tables[i].indices);
    }
    lemma_flat_map_nothing(desired.tables, index_creates(actual));
    assert forall|i: int| 0 <= i < n implies index_renames(desired)(
        #[trigger] actual.tables[i],
    ).len() == 0 by {
        assert(tables_agree(desired.tables[i], actual.tables[i]));
        lemma_no_index_steps(actual.tables[i].name, actual.tables[i].indices);
    }
    lemma_flat_map_nothing(actual.tables, index_renames(desired));
    assert forall|i: int| 0 <= i < n implies key_creates(actual)(
        #[trigger] desired.tables[i],
    ).len() == 0 by {
        assert(tables_agree(desired.tables[i], actual.tables[i]));
        lemma_no_key_steps(
            desired.tables[i].name,
            desired.tables[i].foreign_keys,
            actual.tables[i].foreign_keys,
        );
    }
    lemma_flat_map_nothing(desired.tables, key_creates(actual));
}

/// Comparing a well-formed schema with itself gives no step.
pub proof fn law_diff_with_itself_is_empty(schema: SchemaView)
    requires
        schema.wf(),
    ensures
        schema_diff(schema, schema) == Seq::<StepView>::empty(),
{
    assert forall|i: int| 0 <= i < schema.tables.len() implies tables_agree(
        #[trigger] schema.tables[i],
        schema.tables[i],
    ) by {
        let keys = schema.tables[i].foreign_keys;
        assert forall|j: int| 0 <= j < keys.len() implies key_matches(
            #[trigger] keys[j],
            keys[j],
        ) by {}
    }
    law_agreeing_schemas_need_no_steps(schema, schema);
}

/// A present index whose columns and kind no wanted index has is dropped and
/// not renamed, whatever its name: the columns count before the name.
pub proof fn law_index_without_twin_is_dropped(
    table: Seq<char>,
    desired: Seq<IndexView>,
    actual: Seq<IndexView>,
    a: IndexView,
)
    requires
        forall|j: int| 0 <= j < desired.len() ==> !same_shape(a, #[trigger] desired[j]),
    ensures
        dropped_index(table, desired, actual)(a) == Some(
            StepView::DropIndex { table: table, name: a.name },
        ),
        renamed_index(table, desired, actual)(a) is None,
{
    assert(!desired.contains(a)) by {
        if desired.contains(a) {
            let j = choose|j: int| 0 <= j < desired.len() && desired[j] == a;
            assert(same_shape(a, desired[j]));
        }
    }
    lemma_filter_nothing(desired, free_twin(a, actual));
}

/// A wanted index whose columns and kind no present index has is created,
/// whatever its name.
pub proof fn law_index_without_twin_is_created(
    table: Seq<char>,
    desired: Seq<IndexView>,
    actual: Seq<IndexView>,
    d: IndexView,
)
    requires
        forall|j: int| 0 <= j < actual.len() ==> !same_shape(d, #[trigger] actual[j]),
    ensures
        created_index(table, desired, actual)(d) == Some(
            StepView::CreateIndex { table: table, index: d },
        ),
{
    assert(!actual.contains(d)) by {
        if actual.contains(d) {
            let j = choose|j: int| 0 <= j < actual.len() && actual[j] == d;
            assert(same_shape(d, actual[j]));
        }
    }
    lemma_filter_nothing(actual, free_twin(d, desired));
}

/// Where one present and one wanted index of the same columns and kind are
/// without an equal on the other side, the present one is renamed to the
/// wanted one, and neither is dropped or created.
pub proof fn law_lone_twin_is_renamed(
    table: Seq<char>,
    desired: Seq<IndexView>,
    actual: Seq<IndexView>,
    a: IndexView,
    d: IndexView,
)
    requires
        free_twins(a, actual, desired) == seq![a],
        free_twins(a, desired, actual) == seq![d],
    ensures
        renamed_index(table, desired, actual)(a) == Some(
            StepView::AlterIndex { table: table, index_name: a.name, index_new_name: d.name },
        ),
        dropped_index(table, desired, actual)(a) is None,
        created_index(table, desired, actual)(d) is None,
{
    actual.lemma_filter_pred(free_twin(a, desired), 0);
    desired.lemma_filter_pred(free_twin(a, actual), 0);
    assert(free_twin(a, desired)(a));
    assert(free_twin(a, actual)(d));
    assert(rename_target(a, desired, actual) == Some(d));
    assert(same_shape(a, d));
    lemma_filter_same(desired, free_twin(a, actual), free_twin(d, actual));
    lemma_filter_same(actual, free_twin(a, desired), free_twin(d, desired));
    assert(is_rename_target(d, desired, actual));
}

/// A column that the present table has and the wanted table lacks is
/// dropped.
pub proof fn law_missing_column_is_dropped(desired: TableView, actual: TableView, i: int)
    requires
        0 <= i < actual.columns.len(),
        !desired.has_column(actual.columns[i].name),
    ensures
        column_changes(desired, actual).contains(
            TableChangeView::DropColumn { name: actual.columns[i].name },
        ),
{
    lemma_filter_map_holds(actual.columns, dropped_column(desired), i);
    let drops = actual.columns.filter_map(dropped_column(desired));
    let change = TableChangeView::DropColumn { name: actual.columns[i].name };
    let k = choose|k: int| 0 <= k < drops.len() && drops[k] == change;
    assert(column_changes(desired, actual)[k] == change);
}

} // verus!
