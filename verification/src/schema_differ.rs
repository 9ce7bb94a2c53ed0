//! Comparing the schema that is wanted with the schema that is there.
//!
//! Tables and columns are matched by name. Indices are matched by their
//! ordered columns and kind before their name, so that a changed name alone
//! is a rename. Foreign keys are matched by what they constrain. A primary
//! key is part of a table that is created; on a table that stays it is not
//! compared, and neither are sequences.

use vstd::prelude::*;
use crate::schema::{
    ColumnView, ForeignKey, ForeignKeyView, Index, IndexView, SchemaView, SqlSchema, Table,
    TableView,
};
use crate::steps::{
    AddColumn, AlterColumn, AlterIndex, AlterTable, CreateForeignKey, CreateIndex, CreateTable,
    DropColumn, DropForeignKey, DropIndex, DropTable, SqlMigrationStep, StepView, TableChange,
    TableChangeView, append_steps,
};
use crate::text::same_names;

verus! {

/// A column of the present table that the wanted table lacks is dropped.
pub open spec fn dropped_column(desired: TableView) -> spec_fn(ColumnView) -> Option<
    TableChangeView,
> {
    |c: ColumnView|
        if desired.has_column(c.name) {
            None
        } else {
            Some(TableChangeView::DropColumn { name: c.name })
        }
}

/// A column of the wanted table that the present table lacks is added.
pub open spec fn added_column(actual: TableView) -> spec_fn(ColumnView) -> Option<
    TableChangeView,
> {
    |c: ColumnView|
        if actual.has_column(c.name) {
            None
        } else {
            Some(TableChangeView::AddColumn { column: c })
        }
}

/// A column that both tables have, and define differently, is altered to
/// the wanted definition.
pub open spec fn altered_column(actual: TableView) -> spec_fn(ColumnView) -> Option<
    TableChangeView,
> {
    |c: ColumnView|
        match actual.column(c.name) {
            Some(present) => if present == c {
                None
            } else {
                Some(TableChangeView::AlterColumn { name: c.name, column: c })
            },
            None => None,
        }
}

/// The changes that turn the columns of `actual` into those of `desired`:
/// drops, then additions, then alterations, each in declaration order.
pub open spec fn column_changes(desired: TableView, actual: TableView) -> Seq<TableChangeView> {
    actual.columns.filter_map(dropped_column(desired)) + desired.columns.filter_map(
        added_column(actual),
    ) + desired.columns.filter_map(altered_column(actual))
}

/// Two indices cover the same columns in the same order and are of one kind.
pub open spec fn same_shape(a: IndexView, b: IndexView) -> bool {
    a.columns == b.columns && a.tpe == b.tpe
}

/// An index of the shape of `x` that has no equal among `others`.
pub open spec fn free_twin(x: IndexView, others: Seq<IndexView>) -> spec_fn(IndexView) -> bool {
    |y: IndexView| same_shape(x, y) && !others.contains(y)
}

/// Those of `own` that have the shape of `x` and no equal among `others`.
pub open spec fn free_twins(x: IndexView, own: Seq<IndexView>, others: Seq<IndexView>) -> Seq<
    IndexView,
> {
    own.filter(free_twin(x, others))
}

/// The wanted index that the present index `a` is renamed to: `a` has no
/// equal among the wanted indices, and exactly one present and one wanted
/// index of its shape are without an equal on the other side.
pub open spec fn rename_target(
    a: IndexView,
    desired: Seq<IndexView>,
    actual: Seq<IndexView>,
) -> Option<IndexView> {
    if !desired.contains(a) && free_twins(a, actual, desired).len() == 1 && free_twins(
        a,
        desired,
        actual,
    ).len() == 1 {
        Some(free_twins(a, desired, actual)[0])
    } else {
        None
    }
}

/// Whether the wanted index `d` comes about by renaming a present index.
pub open spec fn is_rename_target(
    d: IndexView,
    desired: Seq<IndexView>,
    actual: Seq<IndexView>,
) -> bool {
    !actual.contains(d) && free_twins(d, desired, actual).len() == 1 && free_twins(
        d,
        actual,
        desired,
    ).len() == 1
}

/// A present index that is neither wanted as it is nor renamed is dropped.
pub open spec fn dropped_index(
    table: Seq<char>,
    desired: Seq<IndexView>,
    actual: Seq<IndexView>,
) -> spec_fn(IndexView) -> Option<StepView> {
    |a: IndexView|
        if desired.contains(a) || rename_target(a, desired, actual) is Some {
            None
        } else {
            Some(StepView::DropIndex { table: table, name: a.name })
        }
}

/// A present index with a rename target is renamed to it.
pub open spec fn renamed_index(
    table: Seq<char>,
    desired: Seq<IndexView>,
    actual: Seq<IndexView>,
) -> spec_fn(IndexView) -> Option<StepView> {
    |a: IndexView|
        match rename_target(a, desired, actual) {
            Some(d) => Some(
                StepView::AlterIndex { table: table, index_name: a.name, index_new_name: d.name },
            ),
            None => None,
        }
}

/// A wanted index that is neither present as it is nor a rename target is
/// created.
pub open spec fn created_index(
    table: Seq<char>,
    desired: Seq<IndexView>,
    actual: Seq<IndexView>,
) -> spec_fn(IndexView) -> Option<StepView> {
    |d: IndexView|
        if actual.contains(d) || is_rename_target(d, desired, actual) {
            None
        } else {
            Some(StepView::CreateIndex { table: table, index: d })
        }
}

/// Whether a present foreign key meets a wanted one: same columns, same
/// referenced table and columns, same action on delete. The constraint name
/// counts only where the wanted key names one.
pub open spec fn key_matches(desired: ForeignKeyView, actual: ForeignKeyView) -> bool {
    &&& desired.columns == actual.columns
    &&& desired.referenced_table == actual.referenced_table
    &&& desired.referenced_columns == actual.referenced_columns
    &&& desired.on_delete_action == actual.on_delete_action
    &&& (desired.constraint_name is None || desired.constraint_name == actual.constraint_name)
}

/// Whether some wanted key is met by the present key `a`.
pub open spec fn is_wanted_key(a: ForeignKeyView, desired: Seq<ForeignKeyView>) -> bool {
    exists|j: int| 0 <= j < desired.len() && key_matches(#[trigger] desired[j], a)
}

/// Whether some present key meets the wanted key `d`.
pub open spec fn is_present_key(d: ForeignKeyView, actual: Seq<ForeignKeyView>) -> bool {
    exists|j: int| 0 <= j < actual.len() && key_matches(d, #[trigger] actual[j])
}

/// A present foreign key that meets no wanted key is dropped.
pub open spec fn dropped_key(table: Seq<char>, desired: Seq<ForeignKeyView>) -> spec_fn(
    ForeignKeyView,
) -> Option<StepView> {
    |a: ForeignKeyView|
        if is_wanted_key(a, desired) {
            None
        } else {
            Some(StepView::DropForeignKey { table: table, foreign_key: a })
        }
}

/// A wanted foreign key that no present key meets is created.
pub open spec fn created_key(table: Seq<char>, actual: Seq<ForeignKeyView>) -> spec_fn(
    ForeignKeyView,
) -> Option<StepView> {
    |d: ForeignKeyView|
        if is_present_key(d, actual) {
            None
        } else {
            Some(StepView::CreateForeignKey { table: table, foreign_key: d })
        }
}

/// The indices of the table of that name, none where the schema has no such
/// table.
pub open spec fn indices_of(schema: SchemaView, name: Seq<char>) -> Seq<IndexView> {
    match schema.table(name) {
        Some(t) => t.indices,
        None => Seq::empty(),
    }
}

/// The foreign keys of the table of that name, none where the schema has no
/// such table.
pub open spec fn keys_of(schema: SchemaView, name: Seq<char>) -> Seq<ForeignKeyView> {
    match schema.table(name) {
        Some(t) => t.foreign_keys,
        None => Seq::empty(),
    }
}

/// The foreign keys of a present table that go: those without a wanted
/// match, and all of them where the table itself goes.
pub open spec fn key_drops(desired: SchemaView) -> spec_fn(TableView) -> Seq<StepView> {
    |a: TableView| a.foreign_keys.filter_map(dropped_key(a.name, keys_of(desired, a.name)))
}

/// The indices that go from a present table that stays.
pub open spec fn index_drops(desired: SchemaView) -> spec_fn(TableView) -> Seq<StepView> {
    |a: TableView|
        match desired.table(a.name) {
            Some(d) => a.indices.filter_map(dropped_index(a.name, d.indices, a.indices)),
            None => Seq::empty(),
        }
}

/// A present table that is not wanted is dropped.
pub open spec fn dropped_table(desired: SchemaView) -> spec_fn(TableView) -> Option<StepView> {
    |a: TableView|
        if desired.has_table(a.name) {
            None
        } else {
            Some(StepView::DropTable { name: a.name })
        }
}

/// A wanted table that is not present is created, with its columns, primary
/// key and foreign keys.
pub open spec fn created_table(actual: SchemaView) -> spec_fn(TableView) -> Option<StepView> {
    |d: TableView|
        if actual.has_table(d.name) {
            None
        } else {
            Some(StepView::CreateTable { table: d })
        }
}

/// A table on both sides whose columns differ is altered.
pub open spec fn altered_table(actual: SchemaView) -> spec_fn(TableView) -> Option<StepView> {
    |d: TableView|
        match actual.table(d.name) {
            Some(a) => if column_changes(d, a).len() > 0 {
                Some(StepView::AlterTable { table: d.name, changes: column_changes(d, a) })
            } else {
                None
            },
            None => None,
        }
}

/// The indices that a wanted table gains: all of them where the table is new.
pub open spec fn index_creates(actual: SchemaView) -> spec_fn(TableView) -> Seq<StepView> {
    |d: TableView|
        d.indices.filter_map(created_index(d.name, d.indices, indices_of(actual, d.name)))
}

/// The indices of a present table that are renamed.
pub open spec fn index_renames(desired: SchemaView) -> spec_fn(TableView) -> Seq<StepView> {
    |a: TableView|
        match desired.table(a.name) {
            Some(d) => a.indices.filter_map(renamed_index(a.name, d.indices, a.indices)),
            None => Seq::empty(),
        }
}

/// The foreign keys that a table on both sides gains.
pub open spec fn key_creates(actual: SchemaView) -> spec_fn(TableView) -> Seq<StepView> {
    |d: TableView|
        match actual.table(d.name) {
            Some(a) => d.foreign_keys.filter_map(created_key(d.name, a.foreign_keys)),
            None => Seq::empty(),
        }
}

/// The steps that turn `actual` into `desired`. Foreign keys go first, then
/// indices, then tables; tables are created, then altered; indices are
/// created, then renamed; foreign keys come last.
pub open spec fn schema_diff(desired: SchemaView, actual: SchemaView) -> Seq<StepView> {
    actual.tables.flat_map(key_drops(desired)) + actual.tables.flat_map(index_drops(desired))
        + actual.tables.filter_map(dropped_table(desired)) + desired.tables.filter_map(
        created_table(actual),
    ) + desired.tables.filter_map(altered_table(actual)) + desired.tables.flat_map(
        index_creates(actual),
    ) + actual.tables.flat_map(index_renames(desired)) + desired.tables.flat_map(
        key_creates(actual),
    )
}

/// The changes that turn the columns of `actual` into those of `desired`.
pub fn diff_columns(desired: &Table, actual: &Table) -> (res: Vec<TableChange>)
    ensures
        res.deep_view() == column_changes(desired.deep_view(), actual.deep_view()),
{
    let ghost dv = desired.deep_view();
    let ghost av = actual.deep_view();
    let mut out: Vec<TableChange> = Vec::new();
    let mut i: usize = 0;
    while i < actual.columns.len()
        invariant
            0 <= i <= actual.columns.len(),
            dv == desired.deep_view(),
            av == actual.deep_view(),
            out.deep_view() == av.columns.take(i as int).filter_map(dropped_column(dv)),
        decreases actual.columns.len() - i,
    {
        let ghost before = out.deep_view();
        proof {
            av.columns.lemma_filter_map_take_succ(dropped_column(dv), i as int);
        }
        let c = &actual.columns[i];
        if !desired.has_column(c.name.as_str()) {
            out.push(TableChange::DropColumn(DropColumn { name: c.name.clone() }));
            assert(out.deep_view() =~= before.push(
                TableChangeView::DropColumn { name: c.name@ },
            ));
        }
        i += 1;
    }
    assert(av.columns.take(actual.columns.len() as int) =~= av.columns);
    let ghost dropped = out.deep_view();
    let mut k: usize = 0;
    while k < desired.columns.len()
        invariant
            0 <= k <= desired.columns.len(),
            dv == desired.deep_view(),
            av == actual.deep_view(),
            out.deep_view() == dropped + dv.columns.take(k as int).filter_map(added_column(av)),
        decreases desired.columns.len() - k,
    {
        let ghost before = out.deep_view();
        proof {
            dv.columns.lemma_filter_map_take_succ(added_column(av), k as int);
        }
        let c = &desired.columns[k];
        if !actual.has_column(c.name.as_str()) {
            out.push(TableChange::AddColumn(AddColumn { column: c.clone() }));
            assert(out.deep_view() =~= before.push(
                TableChangeView::AddColumn { column: c.deep_view() },
            ));
        }
        k += 1;
    }
    assert(dv.columns.take(desired.columns.len() as int) =~= dv.columns);
    let ghost added = out.deep_view();
    let mut m: usize = 0;
    while m < desired.columns.len()
        invariant
            0 <= m <= desired.columns.len(),
            dv == desired.deep_view(),
            av == actual.deep_view(),
            out.deep_view() == added + dv.columns.take(m as int).filter_map(altered_column(av)),
        decreases desired.columns.len() - m,
    {
        let ghost before = out.deep_view();
        proof {
            dv.columns.lemma_filter_map_take_succ(altered_column(av), m as int);
        }
        let c = &desired.columns[m];
        match actual.column(c.name.as_str()) {
            Some(present) => {
                if !present.same(c) {
                    out.push(
                        TableChange::AlterColumn(
                            AlterColumn { name: c.name.clone(), column: c.clone() },
                        ),
                    );
                    assert(out.deep_view() =~= before.push(
                        TableChangeView::AlterColumn { name: c.name@, column: c.deep_view() },
                    ));
                }
            },
            None => {},
        }
        m += 1;
    }
    assert(dv.columns.take(desired.columns.len() as int) =~= dv.columns);
    out
}

/// Whether a list holds an index equal to `x` in name, columns and kind.
pub fn holds_index(list: &Vec<Index>, x: &Index) -> (res: bool)
    ensures
        res == list.deep_view().contains(x.deep_view()),
{
    let mut i: usize = 0;
    while i < list.len()
        invariant
            0 <= i <= list.len(),
            forall|j: int| 0 <= j < i ==> list.deep_view()[j] != x.deep_view(),
        decreases list.len() - i,
    {
        if list[i].same(x) {
            assert(list.deep_view()[i as int] == x.deep_view());
            return true;
        }
        assert(list.deep_view()[i as int] != x.deep_view());
        i += 1;
    }
    false
}

/// Counts those of `own` that have the shape of `x` and no equal among
/// `others`, and gives the place of the last of them, 0 where there is none.
pub fn count_free_twins(x: &Index, own: &Vec<Index>, others: &Vec<Index>) -> (res: (
    usize,
    usize,
))
    ensures
        res.0 == free_twins(x.deep_view(), own.deep_view(), others.deep_view()).len(),
        res.0 > 0 ==> res.1 < own.len() && own@[res.1 as int].deep_view() == free_twins(
            x.deep_view(),
            own.deep_view(),
            others.deep_view(),
        ).last(),
        res.0 > 0 ==> forall|j: int|
            res.1 < j < own.len() ==> !free_twin(x.deep_view(), others.deep_view())(
                #[trigger] own.deep_view()[j],
            ),
        res.0 == 0 ==> res.1 == 0,
{
    let ghost xv = x.deep_view();
    let ghost src = own.deep_view();
    let ghost pred = free_twin(xv, others.deep_view());
    let mut count: usize = 0;
    let mut place: usize = 0;
    let mut i: usize = 0;
    while i < own.len()
        invariant
            0 <= i <= own.len(),
            xv == x.deep_view(),
            src == own.deep_view(),
            pred == free_twin(xv, others.deep_view()),
            count == src.take(i as int).filter(pred).len(),
            count <= i,
            count > 0 ==> place < i && src[place as int] == src.take(i as int).filter(
                pred,
            ).last(),
            count > 0 ==> forall|j: int| place < j < i ==> !pred(#[trigger] src[j]),
            count == 0 ==> place == 0,
        decreases own.len() - i,
    {
        proof {
            assert(src.take(i + 1) =~= src.take(i as int).push(src[i as int]));
            src.take(i as int).lemma_filter_push(src[i as int], pred);
        }
        let y = &own[i];
        if same_names(&x.columns, &y.columns) && x.tpe == y.tpe && !holds_index(others, y) {
            count += 1;
            place = i;
        }
        i += 1;
    }
    assert(src.take(own.len() as int) =~= src);
    (count, place)
}

/// The wanted index that a present index is renamed to, if there is one.
pub fn find_rename_target<'a>(a: &Index, desired: &'a Vec<Index>, actual: &Vec<Index>) -> (res:
    Option<&'a Index>)
    ensures
        match res {
            Some(d) => rename_target(a.deep_view(), desired.deep_view(), actual.deep_view())
                == Some(d.deep_view()),
            None => rename_target(a.deep_view(), desired.deep_view(), actual.deep_view())
                is None,
        },
{
    if holds_index(desired, a) {
        return None;
    }
    let (present, _) = count_free_twins(a, actual, desired);
    if present != 1 {
        return None;
    }
    let (wanted, place) = count_free_twins(a, desired, actual);
    if wanted != 1 {
        return None;
    }
    Some(&desired[place])
}

/// Whether a wanted index comes about by renaming a present one.
pub fn comes_by_rename(d: &Index, desired: &Vec<Index>, actual: &Vec<Index>) -> (res: bool)
    ensures
        res == is_rename_target(d.deep_view(), desired.deep_view(), actual.deep_view()),
{
    if holds_index(actual, d) {
        return false;
    }
    let (wanted, _) = count_free_twins(d, desired, actual);
    if wanted != 1 {
        return false;
    }
    let (present, _) = count_free_twins(d, actual, desired);
    present == 1
}

/// The steps that drop the present indices of a table that are neither kept
/// nor renamed.
pub fn diff_dropped_indices(table: &String, desired: &Vec<Index>, actual: &Vec<Index>) -> (res:
    Vec<SqlMigrationStep>)
    ensures
        res.deep_view() == actual.deep_view().filter_map(
            dropped_index(table@, desired.deep_view(), actual.deep_view()),
        ),
{
    let ghost src = actual.deep_view();
    let ghost f = dropped_index(table@, desired.deep_view(), actual.deep_view());
    let mut out: Vec<SqlMigrationStep> = Vec::new();
    let mut i: usize = 0;
    while i < actual.len()
        invariant
            0 <= i <= actual.len(),
            src == actual.deep_view(),
            f == dropped_index(table@, desired.deep_view(), actual.deep_view()),
            out.deep_view() == src.take(i as int).filter_map(f),
        decreases actual.len() - i,
    {
        let ghost before = out.deep_view();
        proof {
            src.lemma_filter_map_take_succ(f, i as int);
        }
        let a = &actual[i];
        if !holds_index(desired, a) && find_rename_target(a, desired, actual).is_none() {
            out.push(
                SqlMigrationStep::DropIndex(
                    DropIndex { table: table.clone(), name: a.name.clone() },
                ),
            );
            assert(out.deep_view() =~= before.push(
                StepView::DropIndex { table: table@, name: a.name@ },
            ));
        }
        i += 1;
    }
    assert(src.take(actual.len() as int) =~= src);
    out
}

/// The steps that rename the present indices of a table that have a rename
/// target.
pub fn diff_renamed_indices(table: &String, desired: &Vec<Index>, actual: &Vec<Index>) -> (res:
    Vec<SqlMigrationStep>)
    ensures
        res.deep_view() == actual.deep_view().filter_map(
            renamed_index(table@, desired.deep_view(), actual.deep_view()),
        ),
{
    let ghost src = actual.deep_view();
    let ghost f = renamed_index(table@, desired.deep_view(), actual.deep_view());
    let mut out: Vec<SqlMigrationStep> = Vec::new();
    let mut i: usize = 0;
    while i < actual.len()
        invariant
            0 <= i <= actual.len(),
            src == actual.deep_view(),
            f == renamed_index(table@, desired.deep_view(), actual.deep_view()),
            out.deep_view() == src.take(i as int).filter_map(f),
        decreases actual.len() - i,
    {
        let ghost before = out.deep_view();
        proof {
            src.lemma_filter_map_take_succ(f, i as int);
        }
        let a = &actual[i];
        match find_rename_target(a, desired, actual) {
            Some(d) => {
                out.push(
                    SqlMigrationStep::AlterIndex(
                        AlterIndex {
                            table: table.clone(),
                            index_name: a.name.clone(),
                            index_new_name: d.name.clone(),
                        },
                    ),
                );
                assert(out.deep_view() =~= before.push(
                    StepView::AlterIndex {
                        table: table@,
                        index_name: a.name@,
                        index_new_name: d.name@,
                    },
                ));
            },
            None => {},
        }
        i += 1;
    }
    assert(src.take(actual.len() as int) =~= src);
    out
}

/// The steps that create the wanted indices of a table that are neither
/// present nor rename targets.
pub fn diff_created_indices(table: &String, desired: &Vec<Index>, actual: &Vec<Index>) -> (res:
    Vec<SqlMigrationStep>)
    ensures
        res.deep_view() == desired.deep_view().filter_map(
            created_index(table@, desired.deep_view(), actual.deep_view()),
        ),
{
    let ghost src = desired.deep_view();
    let ghost f = created_index(table@, desired.deep_view(), actual.deep_view());
    let mut out: Vec<SqlMigrationStep> = Vec::new();
    let mut i: usize = 0;
    while i < desired.len()
        invariant
            0 <= i <= desired.len(),
            src == desired.deep_view(),
            f == created_index(table@, desired.deep_view(), actual.deep_view()),
            out.deep_view() == src.take(i as int).filter_map(f),
        decreases desired.len() - i,
    {
        let ghost before = out.deep_view();
        proof {
            src.lemma_filter_map_take_succ(f, i as int);
        }
        let d = &desired[i];
        if !holds_index(actual, d) && !comes_by_rename(d, desired, actual) {
            out.push(
                SqlMigrationStep::CreateIndex(
                    CreateIndex { table: table.clone(), index: d.clone() },
                ),
            );
            assert(out.deep_view() =~= before.push(
                StepView::CreateIndex { table: table@, index: d.deep_view() },
            ));
        }
        i += 1;
    }
    assert(src.take(desired.len() as int) =~= src);
    out
}

/// Whether a present foreign key meets a wanted one.
pub fn keys_match(desired: &ForeignKey, actual: &ForeignKey) -> (res: bool)
    ensures
        res == key_matches(desired.deep_view(), actual.deep_view()),
{
    let named = match (&desired.constraint_name, &actual.constraint_name) {
        (None, _) => true,
        (Some(x), Some(y)) => *x == *y,
        (Some(_), None) => false,
    };
    named && same_names(&desired.columns, &actual.columns) && desired.referenced_table
        == actual.referenced_table && same_names(
        &desired.referenced_columns,
        &actual.referenced_columns,
    ) && desired.on_delete_action == actual.on_delete_action
}

/// Whether some wanted key is met by the present key.
pub fn key_is_wanted(a: &ForeignKey, desired: &Vec<ForeignKey>) -> (res: bool)
    ensures
        res == is_wanted_key(a.deep_view(), desired.deep_view()),
{
    let mut i: usize = 0;
    while i < desired.len()
        invariant
            0 <= i <= desired.len(),
            forall|j: int| 0 <= j < i ==> !key_matches(desired.deep_view()[j], a.deep_view()),
        decreases desired.len() - i,
    {
        if keys_match(&desired[i], a) {
            assert(key_matches(desired.deep_view()[i as int], a.deep_view()));
            return true;
        }
        assert(!key_matches(desired.deep_view()[i as int], a.deep_view()));
        i += 1;
    }
    false
}

/// Whether some present key meets the wanted key.
pub fn key_is_present(d: &ForeignKey, actual: &Vec<ForeignKey>) -> (res: bool)
    ensures
        res == is_present_key(d.deep_view(), actual.deep_view()),
{
    let mut i: usize = 0;
    while i < actual.len()
        invariant
            0 <= i <= actual.len(),
            forall|j: int| 0 <= j < i ==> !key_matches(d.deep_view(), actual.deep_view()[j]),
        decreases actual.len() - i,
    {
        if keys_match(d, &actual[i]) {
            assert(key_matches(d.deep_view(), actual.deep_view()[i as int]));
            return true;
        }
        assert(!key_matches(d.deep_view(), actual.deep_view()[i as int]));
        i += 1;
    }
    false
}

/// The steps that drop the present foreign keys of a table that meet no
/// wanted key.
pub fn diff_dropped_keys(table: &String, desired: &Vec<ForeignKey>, actual: &Vec<ForeignKey>)
    -> (res: Vec<SqlMigrationStep>)
    ensures
        res.deep_view() == actual.deep_view().filter_map(
            dropped_key(table@, desired.deep_view()),
        ),
{
    let ghost src = actual.deep_view();
    let ghost f = dropped_key(table@, desired.deep_view());
    let mut out: Vec<SqlMigrationStep> = Vec::new();
    let mut i: usize = 0;
    while i < actual.len()
        invariant
            0 <= i <= actual.len(),
            src == actual.deep_view(),
            f == dropped_key(table@, desired.deep_view()),
            out.deep_view() == src.take(i as int).filter_map(f),
        decreases actual.len() - i,
    {
        let ghost before = out.deep_view();
        proof {
            src.lemma_filter_map_take_succ(f, i as int);
        }
        let a = &actual[i];
        if !key_is_wanted(a, desired) {
            out.push(
                SqlMigrationStep::DropForeignKey(
                    DropForeignKey { table: table.clone(), foreign_key: a.clone() },
                ),
            );
            assert(out.deep_view() =~= before.push(
                StepView::DropForeignKey { table: table@, foreign_key: a.deep_view() },
            ));
        }
        i += 1;
    }
    assert(src.take(actual.len() as int) =~= src);
    out
}

/// The steps that create the wanted foreign keys of a table that no present
/// key meets.
pub fn diff_created_keys(table: &String, desired: &Vec<ForeignKey>, actual: &Vec<ForeignKey>)
    -> (res: Vec<SqlMigrationStep>)
    ensures
        res.deep_view() == desired.deep_view().filter_map(
            created_key(table@, actual.deep_view()),
        ),
{
    let ghost src = desired.deep_view();
    let ghost f = created_key(table@, actual.deep_view());
    let mut out: Vec<SqlMigrationStep> = Vec::new();
    let mut i: usize = 0;
    while i < desired.len()
        invariant
            0 <= i <= desired.len(),
            src == desired.deep_view(),
            f == created_key(table@, actual.deep_view()),
            out.deep_view() == src.take(i as int).filter_map(f),
        decreases desired.len() - i,
    {
        let ghost before = out.deep_view();
        proof {
            src.lemma_filter_map_take_succ(f, i as int);
        }
        let d = &desired[i];
        if !key_is_present(d, actual) {
            out.push(
                SqlMigrationStep::CreateForeignKey(
                    CreateForeignKey { table: table.clone(), foreign_key: d.clone() },
                ),
            );
            assert(out.deep_view() =~= before.push(
                StepView::CreateForeignKey { table: table@, foreign_key: d.deep_view() },
            ));
        }
        i += 1;
    }
    assert(src.take(desired.len() as int) =~= src);
    out
}

/// The foreign keys that go, table by table of the present schema.
pub fn drop_keys(desired: &SqlSchema, actual: &SqlSchema) -> (res: Vec<SqlMigrationStep>)
    ensures
        res.deep_view() == actual.deep_view().tables.flat_map(
            key_drops(desired.deep_view()),
        ),
{
    let ghost src = actual.deep_view().tables;
    let ghost f = key_drops(desired.deep_view());
    let mut out: Vec<SqlMigrationStep> = Vec::new();
    let mut i: usize = 0;
    while i < actual.tables.len()
        invariant
            0 <= i <= actual.tables.len(),
            src == actual.deep_view().tables,
            f == key_drops(desired.deep_view()),
            out.deep_view() == src.take(i as int).flat_map(f),
        decreases actual.tables.len() - i,
    {
        proof {
            src.lemma_flat_map_take_append(f, i as int);
        }
        let t = &actual.tables[i];
        let none: Vec<ForeignKey> = Vec::new();
        let wanted = match desired.table(t.name.as_str()) {
            Some(d) => &d.foreign_keys,
            None => &none,
        };
        assert(wanted.deep_view() =~= keys_of(desired.deep_view(), t.name@));
        let steps = diff_dropped_keys(&t.name, wanted, &t.foreign_keys);
        append_steps(&mut out, steps);
        i += 1;
    }
    assert(src.take(actual.tables.len() as int) =~= src);
    out
}

/// The indices that go from the tables that stay.
pub fn drop_indices(desired: &SqlSchema, actual: &SqlSchema) -> (res: Vec<SqlMigrationStep>)
    ensures
        res.deep_view() == actual.deep_view().tables.flat_map(
            index_drops(desired.deep_view()),
        ),
{
    let ghost src = actual.deep_view().tables;
    let ghost f = index_drops(desired.deep_view());
    let mut out: Vec<SqlMigrationStep> = Vec::new();
    let mut i: usize = 0;
    while i < actual.tables.len()
        invariant
            0 <= i <= actual.tables.len(),
            src == actual.deep_view().tables,
            f == index_drops(desired.deep_view()),
            out.deep_view() == src.take(i as int).flat_map(f),
        decreases actual.tables.len() - i,
    {
        proof {
            src.lemma_flat_map_take_append(f, i as int);
        }
        let t = &actual.tables[i];
        match desired.table(t.name.as_str()) {
            Some(d) => {
                let steps = diff_dropped_indices(&t.name, &d.indices, &t.indices);
                append_steps(&mut out, steps);
            },
            None => {
                assert(out.deep_view() + Seq::<StepView>::empty() =~= out.deep_view());
            },
        }
        i += 1;
    }
    assert(src.take(actual.tables.len() as int) =~= src);
    out
}

/// The indices that come, table by table of the wanted schema.
pub fn create_indices(desired: &SqlSchema, actual: &SqlSchema) -> (res: Vec<SqlMigrationStep>)
    ensures
        res.deep_view() == desired.deep_view().tables.flat_map(
            index_creates(actual.deep_view()),
        ),
{
    let ghost src = desired.deep_view().tables;
    let ghost f = index_creates(actual.deep_view());
    let mut out: Vec<SqlMigrationStep> = Vec::new();
    let mut i: usize = 0;
    while i < desired.tables.len()
        invariant
            0 <= i <= desired.tables.len(),
            src == desired.deep_view().tables,
            f == index_creates(actual.deep_view()),
            out.deep_view() == src.take(i as int).flat_map(f),
        decreases desired.tables.len() - i,
    {
        proof {
            src.lemma_flat_map_take_append(f, i as int);
        }
        let t = &desired.tables[i];
        let none: Vec<Index> = Vec::new();
        let present = match actual.table(t.name.as_str()) {
            Some(a) => &a.indices,
            None => &none,
        };
        assert(present.deep_view() =~= indices_of(actual.deep_view(), t.name@));
        let steps = diff_created_indices(&t.name, &t.indices, present);
        append_steps(&mut out, steps);
        i += 1;
    }
    assert(src.take(desired.tables.len() as int) =~= src);
    out
}

/// The indices that are renamed in the tables that stay.
pub fn rename_indices(desired: &SqlSchema, actual: &SqlSchema) -> (res: Vec<SqlMigrationStep>)
    ensures
        res.deep_view() == actual.deep_view().tables.flat_map(
            index_renames(desired.deep_view()),
        ),
{
    let ghost src = actual.deep_view().tables;
    let ghost f = index_renames(desired.deep_view());
    let mut out: Vec<SqlMigrationStep> = Vec::new();
    let mut i: usize = 0;
    while i < actual.tables.len()
        invariant
            0 <= i <= actual.tables.len(),
            src == actual.deep_view().tables,
            f == index_renames(desired.deep_view()),
            out.deep_view() == src.take(i as int).flat_map(f),
        decreases actual.tables.len() - i,
    {
        proof {
            src.lemma_flat_map_take_append(f, i as int);
        }
        let t = &actual.tables[i];
        match desired.table(t.name.as_str()) {
            Some(d) => {
                let steps = diff_renamed_indices(&t.name, &d.indices, &t.indices);
                append_steps(&mut out, steps);
            },
            None => {
                assert(out.deep_view() + Seq::<StepView>::empty() =~= out.deep_view());
            },
        }
        i += 1;
    }
    assert(src.take(actual.tables.len() as int) =~= src);
    out
}

/// The foreign keys that come to the tables that stay.
pub fn create_keys(desired: &SqlSchema, actual: &SqlSchema) -> (res: Vec<SqlMigrationStep>)
    ensures
        res.deep_view() == desired.deep_view().tables.flat_map(
            key_creates(actual.deep_view()),
        ),
{
    let ghost src = desired.deep_view().tables;
    let ghost f = key_creates(actual.deep_view());
    let mut out: Vec<SqlMigrationStep> = Vec::new();
    let mut i: usize = 0;
    while i < desired.tables.len()
        invariant
            0 <= i <= desired.tables.len(),
            src == desired.deep_view().tables,
            f == key_creates(actual.deep_view()),
            out.deep_view() == src.take(i as int).flat_map(f),
        decreases desired.tables.len() - i,
    {
        proof {
            src.lemma_flat_map_take_append(f, i as int);
        }
        let t = &desired.tables[i];
        match actual.table(t.name.as_str()) {
            Some(a) => {
                let steps = diff_created_keys(&t.name, &t.foreign_keys, &a.foreign_keys);
                append_steps(&mut out, steps);
            },
            None => {
                assert(out.deep_view() + Seq::<StepView>::empty() =~= out.deep_view());
            },
        }
        i += 1;
    }
    assert(src.take(desired.tables.len() as int) =~= src);
    out
}

/// The present tables that go.
pub fn drop_tables(desired: &SqlSchema, actual: &SqlSchema) -> (res: Vec<SqlMigrationStep>)
    ensures
        res.deep_view() == actual.deep_view().tables.filter_map(
            dropped_table(desired.deep_view()),
        ),
{
    let ghost src = actual.deep_view().tables;
    let ghost f = dropped_table(desired.deep_view());
    let mut out: Vec<SqlMigrationStep> = Vec::new();
    let mut i: usize = 0;
    while i < actual.tables.len()
        invariant
            0 <= i <= actual.tables.len(),
            src == actual.deep_view().tables,
            f == dropped_table(desired.deep_view()),
            out.deep_view() == src.take(i as int).filter_map(f),
        decreases actual.tables.len() - i,
    {
        let ghost before = out.deep_view();
        proof {
            src.lemma_filter_map_take_succ(f, i as int);
        }
        let t = &actual.tables[i];
        if !desired.has_table(t.name.as_str()) {
            out.push(SqlMigrationStep::DropTable(DropTable { name: t.name.clone() }));
            assert(out.deep_view() =~= before.push(StepView::DropTable { name: t.name@ }));
        }
        i += 1;
    }
    assert(src.take(actual.tables.len() as int) =~= src);
    out
}

/// The wanted tables that come.
pub fn create_tables(desired: &SqlSchema, actual: &SqlSchema) -> (res: Vec<SqlMigrationStep>)
    ensures
        res.deep_view() == desired.deep_view().tables.filter_map(
            created_table(actual.deep_view()),
        ),
{
    let ghost src = desired.deep_view().tables;
    let ghost f = created_table(actual.deep_view());
    let mut out: Vec<SqlMigrationStep> = Vec::new();
    let mut i: usize = 0;
    while i < desired.tables.len()
        invariant
            0 <= i <= desired.tables.len(),
            src == desired.deep_view().tables,
            f == created_table(actual.deep_view()),
            out.deep_view() == src.take(i as int).filter_map(f),
        decreases desired.tables.len() - i,
    {
        let ghost before = out.deep_view();
        proof {
            src.lemma_filter_map_take_succ(f, i as int);
        }
        let t = &desired.tables[i];
        if !actual.has_table(t.name.as_str()) {
            out.push(SqlMigrationStep::CreateTable(CreateTable { table: t.clone() }));
            assert(out.deep_view() =~= before.push(
                StepView::CreateTable { table: t.deep_view() },
            ));
        }
        i += 1;
    }
    assert(src.take(desired.tables.len() as int) =~= src);
    out
}

/// The tables on both sides whose columns change.
pub fn alter_tables(desired: &SqlSchema, actual: &SqlSchema) -> (res: Vec<SqlMigrationStep>)
    ensures
        res.deep_view() == desired.deep_view().tables.filter_map(
            altered_table(actual.deep_view()),
        ),
{
    let ghost src = desired.deep_view().tables;
    let ghost f = altered_table(actual.deep_view());
    let mut out: Vec<SqlMigrationStep> = Vec::new();
    let mut i: usize = 0;
    while i < desired.tables.len()
        invariant
            0 <= i <= desired.tables.len(),
            src == desired.deep_view().tables,
            f == altered_table(actual.deep_view()),
            out.deep_view() == src.take(i as int).filter_map(f),
        decreases desired.tables.len() - i,
    {
        let ghost before = out.deep_view();
        proof {
            src.lemma_filter_map_take_succ(f, i as int);
        }
        let t = &desired.tables[i];
        match actual.table(t.name.as_str()) {
            Some(a) => {
                let changes = diff_columns(t, a);
                if changes.len() > 0 {
                    let ghost shown = changes.deep_view();
                    out.push(
                        SqlMigrationStep::AlterTable(
                            AlterTable { table: t.name.clone(), changes },
                        ),
                    );
                    assert(out.deep_view() =~= before.push(
                        StepView::AlterTable { table: t.name@, changes: shown },
                    ));
                }
            },
            None => {},
        }
        i += 1;
    }
    assert(src.take(desired.tables.len() as int) =~= src);
    out
}

/// The steps that turn the present schema into the wanted one.
pub fn diff_schemas(desired: &SqlSchema, actual: &SqlSchema) -> (res: Vec<SqlMigrationStep>)
    ensures
        res.deep_view() == schema_diff(desired.deep_view(), actual.deep_view()),
{
    let mut out = drop_keys(desired, actual);
    append_steps(&mut out, drop_indices(desired, actual));
    append_steps(&mut out, drop_tables(desired, actual));
    append_steps(&mut out, create_tables(desired, actual));
    append_steps(&mut out, alter_tables(desired, actual));
    append_steps(&mut out, create_indices(desired, actual));
    append_steps(&mut out, rename_indices(desired, actual));
    append_steps(&mut out, create_keys(desired, actual));
    out
}

} // verus!
