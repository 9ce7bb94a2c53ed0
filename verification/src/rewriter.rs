//! Fitting the steps of a plan to a dialect.
//!
//! A dialect that cannot alter a column or rename an index in place gets the
//! table made anew: a shadow table with the wanted columns is created, the
//! rows are copied over, the old table is dropped and the shadow takes its
//! name. Indices and foreign keys of the old table go before that, those of
//! the wanted table come after. Foreign keys without a name get the name the
//! dialect would give them.

use vstd::prelude::*;
use crate::dialect::{DialectPolicy, KeyNaming, name_key, name_keys, named_key, named_keys};
use crate::schema::{
    ColumnView, ForeignKey, ForeignKeyView, IndexView, SchemaView, SqlSchema, Table, TableView,
    copy_columns,
};
use crate::schema_differ::keys_of;
use crate::seqs::{lemma_position_of, position_of};
use crate::steps::{
    CopyRows, CreateForeignKey, CreateIndex, CreateTable, DropForeignKey, DropIndex, DropTable,
    RenameTable, SqlMigrationStep, StepView, append_steps,
};
use crate::text::copy_names;

verus! {

/// The table that a step changes in place, if it changes one.
pub open spec fn changed_table(step: StepView) -> Option<Seq<char>> {
    match step {
        StepView::AlterTable { table, .. } => Some(table),
        StepView::AlterIndex { table, .. } => Some(table),
        StepView::CreateIndex { table, .. } => Some(table),
        StepView::DropIndex { table, .. } => Some(table),
        StepView::CreateForeignKey { table, .. } => Some(table),
        StepView::DropForeignKey { table, .. } => Some(table),
        _ => None,
    }
}

/// The table that has to be made anew for a step, where the dialect cannot
/// take the step in place: one whose columns are altered or one of whose
/// indices is renamed.
pub open spec fn recreation_trigger(step: StepView) -> Option<Seq<char>> {
    match step {
        StepView::AlterTable { table, .. } => Some(table),
        StepView::AlterIndex { table, .. } => Some(table),
        _ => None,
    }
}

/// Whether some step asks for the table to be made anew.
pub open spec fn has_trigger(steps: Seq<StepView>, table: Seq<char>) -> bool {
    exists|k: int| 0 <= k < steps.len() && recreation_trigger(#[trigger] steps[k]) == Some(table)
}

/// Whether the table is made anew: some step asks for it, and the table is
/// both wanted and present.
pub open spec fn is_recreated(
    steps: Seq<StepView>,
    desired: SchemaView,
    actual: SchemaView,
    table: Seq<char>,
) -> bool {
    desired.has_table(table) && actual.has_table(table) && has_trigger(steps, table)
}

/// No step before the one at `k` changes the table.
pub open spec fn first_on_table(steps: Seq<StepView>, k: int, table: Seq<char>) -> bool {
    forall|j: int| 0 <= j < k ==> changed_table(#[trigger] steps[j]) != Some(table)
}

/// The name of the shadow table that takes the place of a table.
pub open spec fn shadow_name(table: Seq<char>) -> Seq<char> {
    "new_"@ + table
}

/// The step that drops an index of the table.
pub open spec fn drop_index_step(table: Seq<char>) -> spec_fn(IndexView) -> StepView {
    |x: IndexView| StepView::DropIndex { table: table, name: x.name }
}

/// The step that drops a foreign key of the table.
pub open spec fn drop_key_step(table: Seq<char>) -> spec_fn(ForeignKeyView) -> StepView {
    |k: ForeignKeyView| StepView::DropForeignKey { table: table, foreign_key: k }
}

/// The step that creates an index on the table.
pub open spec fn create_index_step(table: Seq<char>) -> spec_fn(IndexView) -> StepView {
    |x: IndexView| StepView::CreateIndex { table: table, index: x }
}

/// The step that creates a foreign key on the table.
pub open spec fn create_key_step(table: Seq<char>) -> spec_fn(ForeignKeyView) -> StepView {
    |k: ForeignKeyView| StepView::CreateForeignKey { table: table, foreign_key: k }
}

/// The name of a wanted column that the present table has too.
pub open spec fn shared_column(actual: TableView) -> spec_fn(ColumnView) -> Option<Seq<char>> {
    |c: ColumnView|
        if actual.has_column(c.name) {
            Some(c.name)
        } else {
            None
        }
}

/// The columns whose values are carried over: the wanted columns that the
/// present table has too, in the wanted order.
pub open spec fn carried_columns(desired: TableView, actual: TableView) -> Seq<Seq<char>> {
    desired.columns.filter_map(shared_column(actual))
}

/// The shadow table: the wanted columns and primary key under the shadow's
/// name, without indices and foreign keys.
pub open spec fn shadow_table(desired: TableView, actual: TableView) -> TableView {
    TableView {
        name: shadow_name(actual.name),
        columns: desired.columns,
        indices: Seq::empty(),
        primary_key: desired.primary_key,
        foreign_keys: Seq::empty(),
    }
}

/// The four steps that put the shadow table in the place of the present one.
pub open spec fn swap_steps(desired: TableView, actual: TableView) -> Seq<StepView> {
    seq![
        StepView::CreateTable { table: shadow_table(desired, actual) },
        StepView::CopyRows {
            from: actual.name,
            to: shadow_name(actual.name),
            columns: carried_columns(desired, actual),
        },
        StepView::DropTable { name: actual.name },
        StepView::RenameTable { name: shadow_name(actual.name), new_name: actual.name },
    ]
}

/// The steps that make a table anew.
pub open spec fn recreation(desired: TableView, actual: TableView) -> Seq<StepView> {
    actual.indices.map_values(drop_index_step(actual.name)) + actual.foreign_keys.map_values(
        drop_key_step(actual.name),
    ) + swap_steps(desired, actual) + desired.indices.map_values(create_index_step(actual.name))
        + desired.foreign_keys.map_values(create_key_step(actual.name))
}

/// What stands in the place of the step at `k`: the step itself, or, where
/// its table is made anew, the steps that do so in the place of the first
/// step on that table and nothing in the place of the others.
pub open spec fn piece(steps: Seq<StepView>, desired: SchemaView, actual: SchemaView, k: int) -> Seq<
    StepView,
> {
    match changed_table(steps[k]) {
        Some(table) => if is_recreated(steps, desired, actual, table) {
            if first_on_table(steps, k, table) {
                recreation(desired.table(table)->0, actual.table(table)->0)
            } else {
                Seq::empty()
            }
        } else {
            seq![steps[k]]
        },
        None => seq![steps[k]],
    }
}

/// The plan with every table made anew whose columns are altered or whose
/// indices are renamed.
pub open spec fn substituted(steps: Seq<StepView>, desired: SchemaView, actual: SchemaView) -> Seq<
    StepView,
> {
    Seq::new(steps.len(), |k: int| piece(steps, desired, actual, k)).flatten()
}

/// The number of a foreign key among those of its table, counted from 1;
/// 0 for a key that the table does not hold.
pub open spec fn key_number(keys: Seq<ForeignKeyView>, key: ForeignKeyView) -> nat {
    match position_of(keys, key) {
        Some(i) => (i + 1) as nat,
        None => 0,
    }
}

/// A step with the dialect's names on the foreign keys it creates.
pub open spec fn named_step(naming: KeyNaming, desired: SchemaView, step: StepView) -> StepView {
    match step {
        StepView::CreateTable { table } => StepView::CreateTable {
            table: TableView {
                foreign_keys: named_keys(naming, table.name, table.foreign_keys),
                ..table
            },
        },
        StepView::CreateForeignKey { table, foreign_key } => StepView::CreateForeignKey {
            table: table,
            foreign_key: named_key(
                naming,
                table,
                foreign_key,
                key_number(keys_of(desired, table), foreign_key),
            ),
        },
        _ => step,
    }
}

/// The plan as the dialect takes it.
pub open spec fn rewritten(
    policy: DialectPolicy,
    steps: Seq<StepView>,
    desired: SchemaView,
    actual: SchemaView,
) -> Seq<StepView> {
    let base = if policy.alters_in_place {
        steps
    } else {
        substituted(steps, desired, actual)
    };
    Seq::new(base.len(), |k: int| named_step(policy.key_naming, desired, base[k]))
}

/// The table that a step changes in place, if it changes one.
pub fn changed_table_of(step: &SqlMigrationStep) -> (res: Option<&String>)
    ensures
        match res {
            Some(t) => changed_table(step.deep_view()) == Some(t@),
            None => changed_table(step.deep_view()) is None,
        },
{
    match step {
        SqlMigrationStep::AlterTable(s) => Some(&s.table),
        SqlMigrationStep::AlterIndex(s) => Some(&s.table),
        SqlMigrationStep::CreateIndex(s) => Some(&s.table),
        SqlMigrationStep::DropIndex(s) => Some(&s.table),
        SqlMigrationStep::CreateForeignKey(s) => Some(&s.table),
        SqlMigrationStep::DropForeignKey(s) => Some(&s.table),
        _ => None,
    }
}

/// Whether some step asks for the table to be made anew.
pub fn asks_for_recreation(steps: &Vec<SqlMigrationStep>, table: &String) -> (res: bool)
    ensures
        res == has_trigger(steps.deep_view(), table@),
{
    let ghost all = steps.deep_view();
    let mut k: usize = 0;
    while k < steps.len()
        invariant
            0 <= k <= steps.len(),
            all == steps.deep_view(),
            forall|j: int| 0 <= j < k ==> recreation_trigger(#[trigger] all[j]) != Some(table@),
        decreases steps.len() - k,
    {
        let hit = match &steps[k] {
            SqlMigrationStep::AlterTable(s) => s.table == *table,
            SqlMigrationStep::AlterIndex(s) => s.table == *table,
            _ => false,
        };
        if hit {
            assert(recreation_trigger(all[k as int]) == Some(table@));
            return true;
        }
        assert(recreation_trigger(all[k as int]) != Some(table@));
        k += 1;
    }
    false
}

/// Whether no step before the one at `k` changes the table.
pub fn is_first_on_table(steps: &Vec<SqlMigrationStep>, k: usize, table: &String) -> (res: bool)
    requires
        k <= steps.len(),
    ensures
        res == first_on_table(steps.deep_view(), k as int, table@),
{
    let ghost all = steps.deep_view();
    let mut j: usize = 0;
    while j < k
        invariant
            0 <= j <= k <= steps.len(),
            all == steps.deep_view(),
            forall|i: int| 0 <= i < j ==> changed_table(#[trigger] all[i]) != Some(table@),
        decreases k - j,
    {
        match changed_table_of(&steps[j]) {
            Some(t) => {
                if *t == *table {
                    assert(changed_table(all[j as int]) == Some(table@));
                    return false;
                }
            },
            None => {},
        }
        assert(changed_table(all[j as int]) != Some(table@));
        j += 1;
    }
    true
}

/// The names of the wanted columns that the present table has too.
pub fn columns_to_carry(desired: &Table, actual: &Table) -> (res: Vec<String>)
    ensures
        res.deep_view() == carried_columns(desired.deep_view(), actual.deep_view()),
{
    let ghost src = desired.deep_view().columns;
    let ghost f = shared_column(actual.deep_view());
    let mut out: Vec<String> = Vec::new();
    let mut i: usize = 0;
    while i < desired.columns.len()
        invariant
            0 <= i <= desired.columns.len(),
            src == desired.deep_view().columns,
            f == shared_column(actual.deep_view()),
            out.deep_view() == src.take(i as int).filter_map(f),
        decreases desired.columns.len() - i,
    {
        let ghost before = out.deep_view();
        proof {
            src.lemma_filter_map_take_succ(f, i as int);
        }
        let c = &desired.columns[i];
        if actual.has_column(c.name.as_str()) {
            out.push(c.name.clone());
            assert(out.deep_view() =~= before.push(c.name@));
        }
        i += 1;
    }
    assert(src.take(desired.columns.len() as int) =~= src);
    out
}

/// The steps that make a table anew.
pub fn recreation_steps(desired: &Table, actual: &Table) -> (res: Vec<SqlMigrationStep>)
    ensures
        res.deep_view() == recreation(desired.deep_view(), actual.deep_view()),
{
    let ghost dv = desired.deep_view();
    let ghost av = actual.deep_view();
    let mut out: Vec<SqlMigrationStep> = Vec::new();
    let mut i: usize = 0;
    while i < actual.indices.len()
        invariant
            0 <= i <= actual.indices.len(),
            av == actual.deep_view(),
            out.deep_view() == av.indices.take(i as int).map_values(drop_index_step(av.name)),
        decreases actual.indices.len() - i,
    {
        let ghost before = out.deep_view();
        proof {
            av.indices.lemma_map_take_succ(drop_index_step(av.name), i as int);
        }
        out.push(
            SqlMigrationStep::DropIndex(
                DropIndex { table: actual.name.clone(), name: actual.indices[i].name.clone() },
            ),
        );
        assert(out.deep_view() =~= before.push(drop_index_step(av.name)(av.indices[i as int])));
        i += 1;
    }
    assert(av.indices.take(actual.indices.len() as int) =~= av.indices);
    let ghost part1 = out.deep_view();
    let mut i: usize = 0;
    while i < actual.foreign_keys.len()
        invariant
            0 <= i <= actual.foreign_keys.len(),
            av == actual.deep_view(),
            out.deep_view() == part1 + av.foreign_keys.take(i as int).map_values(
                drop_key_step(av.name),
            ),
        decreases actual.foreign_keys.len() - i,
    {
        let ghost before = out.deep_view();
        proof {
            av.foreign_keys.lemma_map_take_succ(drop_key_step(av.name), i as int);
        }
        out.push(
            SqlMigrationStep::DropForeignKey(
                DropForeignKey {
                    table: actual.name.clone(),
                    foreign_key: actual.foreign_keys[i].clone(),
                },
            ),
        );
        assert(out.deep_view() =~= before.push(
            drop_key_step(av.name)(av.foreign_keys[i as int]),
        ));
        i += 1;
    }
    assert(av.foreign_keys.take(actual.foreign_keys.len() as int) =~= av.foreign_keys);
    let ghost part2 = out.deep_view();
    let mut shadow = String::from_str("new_");
    shadow.append(actual.name.as_str());
    let primary_key = match &desired.primary_key {
        Some(names) => Some(copy_names(names)),
        None => None,
    };
    let made = Table {
        name: shadow.clone(),
        columns: copy_columns(&desired.columns),
        indices: Vec::new(),
        primary_key,
        foreign_keys: Vec::new(),
    };
    assert(made.indices.deep_view() =~= Seq::<IndexView>::empty());
    assert(made.foreign_keys.deep_view() =~= Seq::<ForeignKeyView>::empty());
    assert(made.deep_view() == shadow_table(dv, av));
    out.push(SqlMigrationStep::CreateTable(CreateTable { table: made }));
    out.push(
        SqlMigrationStep::CopyRows(
            CopyRows {
                from: actual.name.clone(),
                to: shadow.clone(),
                columns: columns_to_carry(desired, actual),
            },
        ),
    );
    out.push(SqlMigrationStep::DropTable(DropTable { name: actual.name.clone() }));
    out.push(
        SqlMigrationStep::RenameTable(RenameTable { name: shadow, new_name: actual.name.clone() }),
    );
    assert(out.deep_view() =~= part2 + swap_steps(dv, av));
    let ghost part3 = out.deep_view();
    let mut i: usize = 0;
    while i < desired.indices.len()
        invariant
            0 <= i <= desired.indices.len(),
            dv == desired.deep_view(),
            av == actual.deep_view(),
            out.deep_view() == part3 + dv.indices.take(i as int).map_values(
                create_index_step(av.name),
            ),
        decreases desired.indices.len() - i,
    {
        let ghost before = out.deep_view();
        proof {
            dv.indices.lemma_map_take_succ(create_index_step(av.name), i as int);
        }
        out.push(
            SqlMigrationStep::CreateIndex(
                CreateIndex { table: actual.name.clone(), index: desired.indices[i].clone() },
            ),
        );
        assert(out.deep_view() =~= before.push(
            create_index_step(av.name)(dv.indices[i as int]),
        ));
        i += 1;
    }
    assert(dv.indices.take(desired.indices.len() as int) =~= dv.indices);
    let ghost part4 = out.deep_view();
    let mut i: usize = 0;
    while i < desired.foreign_keys.len()
        invariant
            0 <= i <= desired.foreign_keys.len(),
            dv == desired.deep_view(),
            av == actual.deep_view(),
            out.deep_view() == part4 + dv.foreign_keys.take(i as int).map_values(
                create_key_step(av.name),
            ),
        decreases desired.foreign_keys.len() - i,
    {
        let ghost before = out.deep_view();
        proof {
            dv.foreign_keys.lemma_map_take_succ(create_key_step(av.name), i as int);
        }
        out.push(
            SqlMigrationStep::CreateForeignKey(
                CreateForeignKey {
                    table: actual.name.clone(),
                    foreign_key: desired.foreign_keys[i].clone(),
                },
            ),
        );
        assert(out.deep_view() =~= before.push(
            create_key_step(av.name)(dv.foreign_keys[i as int]),
        ));
        i += 1;
    }
    assert(dv.foreign_keys.take(desired.foreign_keys.len() as int) =~= dv.foreign_keys);
    out
}

/// Puts the steps that make a table anew in the place of the steps that the
/// dialect cannot take in place.
pub fn substitute_recreations(
    steps: &Vec<SqlMigrationStep>,
    desired: &SqlSchema,
    actual: &SqlSchema,
) -> (res: Vec<SqlMigrationStep>)
    ensures
        res.deep_view() == substituted(
            steps.deep_view(),
            desired.deep_view(),
            actual.deep_view(),
        ),
{
    let ghost all = steps.deep_view();
    let ghost dv = desired.deep_view();
    let ghost av = actual.deep_view();
    let ghost pieces = Seq::new(all.len(), |k: int| piece(all, dv, av, k));
    let mut out: Vec<SqlMigrationStep> = Vec::new();
    let mut k: usize = 0;
    assert(pieces.take(0) =~= Seq::<Seq<StepView>>::empty());
    while k < steps.len()
        invariant
            0 <= k <= steps.len(),
            all == steps.deep_view(),
            dv == desired.deep_view(),
            av == actual.deep_view(),
            pieces == Seq::new(all.len(), |k: int| piece(all, dv, av, k)),
            out.deep_view() == pieces.take(k as int).flatten(),
        decreases steps.len() - k,
    {
        let ghost before = out.deep_view();
        proof {
            assert(pieces.take(k + 1) =~= pieces.take(k as int).push(pieces[k as int]));
            pieces.take(k as int).lemma_flatten_push(pieces[k as int]);
        }
        let step = &steps[k];
        let mut kept = true;
        match changed_table_of(step) {
            Some(table) => {
                if asks_for_recreation(steps, table) {
                    match (desired.table(table.as_str()), actual.table(table.as_str())) {
                        (Some(d), Some(a)) => {
                            kept = false;
                            if is_first_on_table(steps, k, table) {
                                append_steps(&mut out, recreation_steps(d, a));
                            } else {
                                assert(before + Seq::<StepView>::empty() =~= before);
                            }
                        },
                        _ => {},
                    }
                }
            },
            None => {},
        }
        if kept {
            out.push(step.clone());
            assert(out.deep_view() =~= before + seq![all[k as int]]);
        }
        k += 1;
    }
    assert(pieces.take(steps.len() as int) =~= pieces);
    out
}

/// The number of a foreign key among the given keys, counted from 1; 0 for
/// a key that is not among them.
pub fn number_of_key(keys: &Vec<ForeignKey>, key: &ForeignKey) -> (res: usize)
    ensures
        res == key_number(keys.deep_view(), key.deep_view()),
{
    let ghost all = keys.deep_view();
    let mut i: usize = 0;
    while i < keys.len()
        invariant
            0 <= i <= keys.len(),
            all == keys.deep_view(),
            forall|j: int| 0 <= j < i ==> all[j] != key.deep_view(),
        decreases keys.len() - i,
    {
        if keys[i].same(key) {
            proof {
                assert(all[i as int] == key.deep_view());
                lemma_position_of(all, key.deep_view());
            }
            return i + 1;
        }
        assert(all[i as int] != key.deep_view());
        i += 1;
    }
    proof {
        lemma_position_of(all, key.deep_view());
    }
    0
}

/// Puts the dialect's names on the foreign keys that a step creates.
pub fn name_step(naming: KeyNaming, desired: &SqlSchema, step: &SqlMigrationStep) -> (res:
    SqlMigrationStep)
    ensures
        res.deep_view() == named_step(naming, desired.deep_view(), step.deep_view()),
{
    match step {
        SqlMigrationStep::CreateTable(s) => {
            let mut table = s.table.clone();
            table.foreign_keys = name_keys(naming, &s.table.name, &s.table.foreign_keys);
            SqlMigrationStep::CreateTable(CreateTable { table })
        },
        SqlMigrationStep::CreateForeignKey(s) => {
            let none: Vec<ForeignKey> = Vec::new();
            let keys = match desired.table(s.table.as_str()) {
                Some(d) => &d.foreign_keys,
                None => &none,
            };
            assert(keys.deep_view() =~= keys_of(desired.deep_view(), s.table@));
            let number = number_of_key(keys, &s.foreign_key);
            SqlMigrationStep::CreateForeignKey(
                CreateForeignKey {
                    table: s.table.clone(),
                    foreign_key: name_key(naming, &s.table, &s.foreign_key, number),
                },
            )
        },
        _ => step.clone(),
    }
}

impl DialectPolicy {
    /// Fits the steps of a plan to the dialect.
    pub fn rewrite_steps(
        &self,
        steps: &Vec<SqlMigrationStep>,
        desired: &SqlSchema,
        actual: &SqlSchema,
    ) -> (res: Vec<SqlMigrationStep>)
        ensures
            res.deep_view() == rewritten(
                *self,
                steps.deep_view(),
                desired.deep_view(),
                actual.deep_view(),
            ),
    {
        let substituted_steps: Vec<SqlMigrationStep>;
        let base = if self.alters_in_place {
            steps
        } else {
            substituted_steps = substitute_recreations(steps, desired, actual);
            &substituted_steps
        };
        let mut out: Vec<SqlMigrationStep> = Vec::new();
        let mut k: usize = 0;
        while k < base.len()
            invariant
                0 <= k <= base.len(),
                out.len() == k,
                forall|j: int|
                    0 <= j < k ==> out@[j].deep_view() == named_step(
                        self.key_naming,
                        desired.deep_view(),
                        base@[j].deep_view(),
                    ),
            decreases base.len() - k,
        {
            out.push(name_step(self.key_naming, desired, &base[k]));
            k += 1;
        }
        assert(out.deep_view() =~= rewritten(
            *self,
            steps.deep_view(),
            desired.deep_view(),
            actual.deep_view(),
        ));
        out
    }
}

} // verus!
