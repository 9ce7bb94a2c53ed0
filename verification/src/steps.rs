//! The vocabulary of a migration plan: one value per change to a table, an
//! index or a foreign key.

use vstd::prelude::*;
use crate::schema::{
    Column, ColumnView, ForeignKey, ForeignKeyView, Index, IndexView, Table, TableView,
};
use crate::text::copy_names;

verus! {

/// Creates a table with its columns, primary key and foreign keys.
#[derive(Debug, PartialEq, Eq)]
pub struct CreateTable {
    pub table: Table,
}

/// Drops a table with its rows.
#[derive(Debug, PartialEq, Eq)]
pub struct DropTable {
    pub name: String,
}

/// Adds a column to a table.
#[derive(Debug, PartialEq, Eq)]
pub struct AddColumn {
    pub column: Column,
}

/// Drops a column with its values.
#[derive(Debug, PartialEq, Eq)]
pub struct DropColumn {
    pub name: String,
}

/// Gives the column `name` the definition `column`.
#[derive(Debug, PartialEq, Eq)]
pub struct AlterColumn {
    pub name: String,
    pub column: Column,
}

/// One change to the columns of a table.
#[derive(Debug, PartialEq, Eq)]
pub enum TableChange {
    AddColumn(AddColumn),
    DropColumn(DropColumn),
    AlterColumn(AlterColumn),
}

/// Changes the columns of a table.
#[derive(Debug, PartialEq, Eq)]
pub struct AlterTable {
    pub table: String,
    pub changes: Vec<TableChange>,
}

/// Creates an index on a table.
#[derive(Debug, PartialEq, Eq)]
pub struct CreateIndex {
    pub table: String,
    pub index: Index,
}

/// Drops an index of a table.
#[derive(Debug, PartialEq, Eq)]
pub struct DropIndex {
    pub table: String,
    pub name: String,
}

/// Renames an index; its columns stay as they are.
#[derive(Debug, PartialEq, Eq)]
pub struct AlterIndex {
    pub table: String,
    pub index_name: String,
    pub index_new_name: String,
}

/// Adds a foreign key to a table.
#[derive(Debug, PartialEq, Eq)]
pub struct CreateForeignKey {
    pub table: String,
    pub foreign_key: ForeignKey,
}

/// Drops a foreign key of a table.
#[derive(Debug, PartialEq, Eq)]
pub struct DropForeignKey {
    pub table: String,
    pub foreign_key: ForeignKey,
}

/// Gives a table another name.
#[derive(Debug, PartialEq, Eq)]
pub struct RenameTable {
    pub name: String,
    pub new_name: String,
}

/// Copies the named columns of every row of `from` into `to`.
#[derive(Debug, PartialEq, Eq)]
pub struct CopyRows {
    pub from: String,
    pub to: String,
    pub columns: Vec<String>,
}

/// One step of a plan.
#[derive(Debug, PartialEq, Eq)]
pub enum SqlMigrationStep {
    CreateTable(CreateTable),
    DropTable(DropTable),
    AlterTable(AlterTable),
    CreateIndex(CreateIndex),
    DropIndex(DropIndex),
    AlterIndex(AlterIndex),
    CreateForeignKey(CreateForeignKey),
    DropForeignKey(DropForeignKey),
    RenameTable(RenameTable),
    CopyRows(CopyRows),
}

/// The view of `TableChange` that contracts speak of.
pub enum TableChangeView {
    AddColumn { column: ColumnView },
    DropColumn { name: Seq<char> },
    AlterColumn { name: Seq<char>, column: ColumnView },
}

/// The view of `SqlMigrationStep` that contracts speak of.
#[allow(inconsistent_fields)]
pub enum StepView {
    CreateTable { table: TableView },
    DropTable { name: Seq<char> },
    AlterTable { table: Seq<char>, changes: Seq<TableChangeView> },
    CreateIndex { table: Seq<char>, index: IndexView },
    DropIndex { table: Seq<char>, name: Seq<char> },
    AlterIndex { table: Seq<char>, index_name: Seq<char>, index_new_name: Seq<char> },
    CreateForeignKey { table: Seq<char>, foreign_key: ForeignKeyView },
    DropForeignKey { table: Seq<char>, foreign_key: ForeignKeyView },
    RenameTable { name: Seq<char>, new_name: Seq<char> },
    CopyRows { from: Seq<char>, to: Seq<char>, columns: Seq<Seq<char>> },
}

impl DeepView for TableChange {
    type V = TableChangeView;

    open spec fn deep_view(&self) -> TableChangeView {
        match self {
            TableChange::AddColumn(c) => TableChangeView::AddColumn {
                column: c.column.deep_view(),
            },
            TableChange::DropColumn(c) => TableChangeView::DropColumn { name: c.name@ },
            TableChange::AlterColumn(c) => TableChangeView::AlterColumn {
                name: c.name@,
                column: c.column.deep_view(),
            },
        }
    }
}

impl DeepView for SqlMigrationStep {
    type V = StepView;

    open spec fn deep_view(&self) -> StepView {
        match self {
            SqlMigrationStep::CreateTable(s) => StepView::CreateTable {
                table: s.table.deep_view(),
            },
            SqlMigrationStep::DropTable(s) => StepView::DropTable { name: s.name@ },
            SqlMigrationStep::AlterTable(s) => StepView::AlterTable {
                table: s.table@,
                changes: s.changes.deep_view(),
            },
            SqlMigrationStep::CreateIndex(s) => StepView::CreateIndex {
                table: s.table@,
                index: s.index.deep_view(),
            },
            SqlMigrationStep::DropIndex(s) => StepView::DropIndex { table: s.table@, name: s.name@ },
            SqlMigrationStep::AlterIndex(s) => StepView::AlterIndex {
                table: s.table@,
                index_name: s.index_name@,
                index_new_name: s.index_new_name@,
            },
            SqlMigrationStep::CreateForeignKey(s) => StepView::CreateForeignKey {
                table: s.table@,
                foreign_key: s.foreign_key.deep_view(),
            },
            SqlMigrationStep::DropForeignKey(s) => StepView::DropForeignKey {
                table: s.table@,
                foreign_key: s.foreign_key.deep_view(),
            },
            SqlMigrationStep::RenameTable(s) => StepView::RenameTable {
                name: s.name@,
                new_name: s.new_name@,
            },
            SqlMigrationStep::CopyRows(s) => StepView::CopyRows {
                from: s.from@,
                to: s.to@,
                columns: s.columns.deep_view(),
            },
        }
    }
}

impl Clone for TableChange {
    fn clone(&self) -> (res: Self)
        ensures
            res.deep_view() == self.deep_view(),
    {
        match self {
            TableChange::AddColumn(c) => TableChange::AddColumn(
                AddColumn { column: c.column.clone() },
            ),
            TableChange::DropColumn(c) => TableChange::DropColumn(
                DropColumn { name: c.name.clone() },
            ),
            TableChange::AlterColumn(c) => TableChange::AlterColumn(
                AlterColumn { name: c.name.clone(), column: c.column.clone() },
            ),
        }
    }
}

/// A copy of a list of changes to one table.
pub fn copy_changes(changes: &Vec<TableChange>) -> (res: Vec<TableChange>)
    ensures
        res.deep_view() == changes.deep_view(),
{
    let mut out: Vec<TableChange> = Vec::new();
    let mut i: usize = 0;
    while i < changes.len()
        invariant
            0 <= i <= changes.len(),
            out.len() == i,
            forall|j: int| 0 <= j < i ==> out@[j].deep_view() == changes@[j].deep_view(),
        decreases changes.len() - i,
    {
        out.push(changes[i].clone());
        i += 1;
    }
    assert(out.deep_view() =~= changes.deep_view());
    out
}

impl Clone for SqlMigrationStep {
    fn clone(&self) -> (res: Self)
        ensures
            res.deep_view() == self.deep_view(),
    {
        match self {
            SqlMigrationStep::CreateTable(s) => SqlMigrationStep::CreateTable(
                CreateTable { table: s.table.clone() },
            ),
            SqlMigrationStep::DropTable(s) => SqlMigrationStep::DropTable(
                DropTable { name: s.name.clone() },
            ),
            SqlMigrationStep::AlterTable(s) => SqlMigrationStep::AlterTable(
                AlterTable { table: s.table.clone(), changes: copy_changes(&s.changes) },
            ),
            SqlMigrationStep::CreateIndex(s) => SqlMigrationStep::CreateIndex(
                CreateIndex { table: s.table.clone(), index: s.index.clone() },
            ),
            SqlMigrationStep::DropIndex(s) => SqlMigrationStep::DropIndex(
                DropIndex { table: s.table.clone(), name: s.name.clone() },
            ),
            SqlMigrationStep::AlterIndex(s) => SqlMigrationStep::AlterIndex(
                AlterIndex {
                    table: s.table.clone(),
                    index_name: s.index_name.clone(),
                    index_new_name: s.index_new_name.clone(),
                },
            ),
            SqlMigrationStep::CreateForeignKey(s) => SqlMigrationStep::CreateForeignKey(
                CreateForeignKey { table: s.table.clone(), foreign_key: s.foreign_key.clone() },
            ),
            SqlMigrationStep::DropForeignKey(s) => SqlMigrationStep::DropForeignKey(
                DropForeignKey { table: s.table.clone(), foreign_key: s.foreign_key.clone() },
            ),
            SqlMigrationStep::RenameTable(s) => SqlMigrationStep::RenameTable(
                RenameTable { name: s.name.clone(), new_name: s.new_name.clone() },
            ),
            SqlMigrationStep::CopyRows(s) => SqlMigrationStep::CopyRows(
                CopyRows {
                    from: s.from.clone(),
                    to: s.to.clone(),
                    columns: copy_names(&s.columns),
                },
            ),
        }
    }
}

/// Moves the steps of `more` to the end of `steps`.
pub fn append_steps(steps: &mut Vec<SqlMigrationStep>, more: Vec<SqlMigrationStep>)
    ensures
        final(steps).deep_view() == old(steps).deep_view() + more.deep_view(),
{
    let mut more = more;
    let ghost before = steps.deep_view();
    let ghost added = more.deep_view();
    steps.append(&mut more);
    assert(steps.deep_view() =~= before + added);
}

} // verus!
