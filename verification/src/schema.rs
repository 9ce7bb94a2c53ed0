//! The shape of a relational database: tables, columns, indices, foreign
//! keys and sequences, as plain data with lookups by name.

use vstd::prelude::*;
use crate::seqs::{lemma_position_of, position_of};
use crate::text::{
    all_distinct, copy_names, copy_optional_text, same_names, same_optional_text,
};

verus! {

/// The family of types a column's values belong to.
#[derive(Debug, Clone, Copy, PartialEq, Eq, Structural)]
pub enum ColumnTypeFamily {
    Int,
    Float,
    Boolean,
    String,
    DateTime,
    Decimal,
}

/// How many values a column holds per row.
#[derive(Debug, Clone, Copy, PartialEq, Eq, Structural)]
pub enum ColumnArity {
    Required,
    Nullable,
    List,
}

/// The type of a column: its family and how many values it holds.
#[derive(Debug, Clone, Copy, PartialEq, Eq, Structural)]
pub struct ColumnType {
    pub family: ColumnTypeFamily,
    pub arity: ColumnArity,
}

/// A column of a table.
#[derive(Debug, PartialEq, Eq)]
pub struct Column {
    pub name: String,
    pub tpe: ColumnType,
    pub default: Option<String>,
    pub auto_increment: bool,
}

/// Whether an index keeps its columns unique.
#[derive(Debug, Clone, Copy, PartialEq, Eq, Structural)]
pub enum IndexType {
    Unique,
    Normal,
}

/// An index over an ordered list of columns.
#[derive(Debug, PartialEq, Eq)]
pub struct Index {
    pub name: String,
    pub columns: Vec<String>,
    pub tpe: IndexType,
}

/// What happens to a referencing row when the referenced row is deleted.
#[derive(Debug, Clone, Copy, PartialEq, Eq, Structural)]
pub enum ForeignKeyAction {
    NoAction,
    Restrict,
    Cascade,
    SetNull,
    SetDefault,
}

/// A foreign key: columns of a table that refer to columns of another.
#[derive(Debug, PartialEq, Eq)]
pub struct ForeignKey {
    pub constraint_name: Option<String>,
    pub columns: Vec<String>,
    pub referenced_table: String,
    pub referenced_columns: Vec<String>,
    pub on_delete_action: ForeignKeyAction,
}

/// A table with its columns, indices, primary key and foreign keys.
#[derive(Debug, PartialEq, Eq)]
pub struct Table {
    pub name: String,
    pub columns: Vec<Column>,
    pub indices: Vec<Index>,
    pub primary_key: Option<Vec<String>>,
    pub foreign_keys: Vec<ForeignKey>,
}

/// A sequence that hands out numbers.
#[derive(Debug, PartialEq, Eq)]
pub struct Sequence {
    pub name: String,
}

/// One complete snapshot of a database's structure.
#[derive(Debug, PartialEq, Eq)]
pub struct SqlSchema {
    pub tables: Vec<Table>,
    pub sequences: Vec<Sequence>,
}

/// The view of `Column` that contracts speak of.
pub struct ColumnView {
    pub name: Seq<char>,
    pub tpe: ColumnType,
    pub default: Option<Seq<char>>,
    pub auto_increment: bool,
}

/// The view of `Index` that contracts speak of.
pub struct IndexView {
    pub name: Seq<char>,
    pub columns: Seq<Seq<char>>,
    pub tpe: IndexType,
}

/// The view of `ForeignKey` that contracts speak of.
pub struct ForeignKeyView {
    pub constraint_name: Option<Seq<char>>,
    pub columns: Seq<Seq<char>>,
    pub referenced_table: Seq<char>,
    pub referenced_columns: Seq<Seq<char>>,
    pub on_delete_action: ForeignKeyAction,
}

/// The view of `Table` that contracts speak of.
pub struct TableView {
    pub name: Seq<char>,
    pub columns: Seq<ColumnView>,
    pub indices: Seq<IndexView>,
    pub primary_key: Option<Seq<Seq<char>>>,
    pub foreign_keys: Seq<ForeignKeyView>,
}

/// The view of `SqlSchema` that contracts speak of.
pub struct SchemaView {
    pub tables: Seq<TableView>,
    pub sequences: Seq<Seq<char>>,
}

impl DeepView for Column {
    type V = ColumnView;

    open spec fn deep_view(&self) -> ColumnView {
        ColumnView {
            name: self.name@,
            tpe: self.tpe,
            default: self.default.deep_view(),
            auto_increment: self.auto_increment,
        }
    }
}

impl DeepView for Index {
    type V = IndexView;

    open spec fn deep_view(&self) -> IndexView {
        IndexView { name: self.name@, columns: self.columns.deep_view(), tpe: self.tpe }
    }
}

impl DeepView for ForeignKey {
    type V = ForeignKeyView;

    open spec fn deep_view(&self) -> ForeignKeyView {
        ForeignKeyView {
            constraint_name: self.constraint_name.deep_view(),
            columns: self.columns.deep_view(),
            referenced_table: self.referenced_table@,
            referenced_columns: self.referenced_columns.deep_view(),
            on_delete_action: self.on_delete_action,
        }
    }
}

impl DeepView for Table {
    type V = TableView;

    open spec fn deep_view(&self) -> TableView {
        TableView {
            name: self.name@,
            columns: self.columns.deep_view(),
            indices: self.indices.deep_view(),
            primary_key: self.primary_key.deep_view(),
            foreign_keys: self.foreign_keys.deep_view(),
        }
    }
}

impl DeepView for Sequence {
    type V = Seq<char>;

    open spec fn deep_view(&self) -> Seq<char> {
        self.name@
    }
}

impl DeepView for SqlSchema {
    type V = SchemaView;

    open spec fn deep_view(&self) -> SchemaView {
        SchemaView { tables: self.tables.deep_view(), sequences: self.sequences.deep_view() }
    }
}

/// The names of a list of columns, in order.
pub open spec fn column_names(columns: Seq<ColumnView>) -> Seq<Seq<char>> {
    Seq::new(columns.len(), |i: int| columns[i].name)
}

/// The names of a list of indices, in order.
pub open spec fn index_names(indices: Seq<IndexView>) -> Seq<Seq<char>> {
    Seq::new(indices.len(), |i: int| indices[i].name)
}

/// The names of a list of tables, in order.
pub open spec fn table_names(tables: Seq<TableView>) -> Seq<Seq<char>> {
    Seq::new(tables.len(), |i: int| tables[i].name)
}

impl ColumnView {
    /// Whether every row has to give the column a value.
    pub open spec fn is_required(self) -> bool {
        self.tpe.arity == ColumnArity::Required
    }
}

impl TableView {
    /// The first column of that name.
    pub open spec fn column(self, name: Seq<char>) -> Option<ColumnView> {
        match position_of(column_names(self.columns), name) {
            Some(i) => Some(self.columns[i]),
            None => None,
        }
    }

    /// Whether the table has a column of that name.
    pub open spec fn has_column(self, name: Seq<char>) -> bool {
        self.column(name) is Some
    }

    /// The first index of that name.
    pub open spec fn index(self, name: Seq<char>) -> Option<IndexView> {
        match position_of(index_names(self.indices), name) {
            Some(i) => Some(self.indices[i]),
            None => None,
        }
    }

    /// No two columns share a name, and no two indices do.
    pub open spec fn wf(self) -> bool {
        &&& column_names(self.columns).no_duplicates()
        &&& index_names(self.indices).no_duplicates()
    }
}

impl SchemaView {
    /// The first table of that name.
    pub open spec fn table(self, name: Seq<char>) -> Option<TableView> {
        match position_of(table_names(self.tables), name) {
            Some(i) => Some(self.tables[i]),
            None => None,
        }
    }

    /// Whether the schema has a table of that name.
    pub open spec fn has_table(self, name: Seq<char>) -> bool {
        self.table(name) is Some
    }

    /// The sequence of that name, if the schema has one.
    pub open spec fn sequence(self, name: Seq<char>) -> Option<Seq<char>> {
        if self.sequences.contains(name) {
            Some(name)
        } else {
            None
        }
    }

    /// No two tables share a name, and every table is well formed.
    pub open spec fn wf(self) -> bool {
        &&& table_names(self.tables).no_duplicates()
        &&& forall|i: int| 0 <= i < self.tables.len() ==> (#[trigger] self.tables[i]).wf()
    }
}

impl Clone for Column {
    fn clone(&self) -> (res: Self)
        ensures
            res.deep_view() == self.deep_view(),
    {
        Column {
            name: self.name.clone(),
            tpe: self.tpe,
            default: copy_optional_text(&self.default),
            auto_increment: self.auto_increment,
        }
    }
}

impl Clone for Index {
    fn clone(&self) -> (res: Self)
        ensures
            res.deep_view() == self.deep_view(),
    {
        Index { name: self.name.clone(), columns: copy_names(&self.columns), tpe: self.tpe }
    }
}

impl Clone for ForeignKey {
    fn clone(&self) -> (res: Self)
        ensures
            res.deep_view() == self.deep_view(),
    {
        ForeignKey {
            constraint_name: copy_optional_text(&self.constraint_name),
            columns: copy_names(&self.columns),
            referenced_table: self.referenced_table.clone(),
            referenced_columns: copy_names(&self.referenced_columns),
            on_delete_action: self.on_delete_action,
        }
    }
}

/// A copy of a list of columns.
pub fn copy_columns(columns: &Vec<Column>) -> (res: Vec<Column>)
    ensures
        res.deep_view() == columns.deep_view(),
{
    let mut out: Vec<Column> = Vec::new();
    let mut i: usize = 0;
    while i < columns.len()
        invariant
            0 <= i <= columns.len(),
            out.len() == i,
            forall|j: int| 0 <= j < i ==> out@[j].deep_view() == columns@[j].deep_view(),
        decreases columns.len() - i,
    {
        out.push(columns[i].clone());
        i += 1;
    }
    assert(out.deep_view() =~= columns.deep_view());
    out
}

/// A copy of a list of indices.
pub fn copy_indices(indices: &Vec<Index>) -> (res: Vec<Index>)
    ensures
        res.deep_view() == indices.deep_view(),
{
    let mut out: Vec<Index> = Vec::new();
    let mut i: usize = 0;
    while i < indices.len()
        invariant
            0 <= i <= indices.len(),
            out.len() == i,
            forall|j: int| 0 <= j < i ==> out@[j].deep_view() == indices@[j].deep_view(),
        decreases indices.len() - i,
    {
        out.push(indices[i].clone());
        i += 1;
    }
    assert(out.deep_view() =~= indices.deep_view());
    out
}

/// A copy of a list of foreign keys.
pub fn copy_foreign_keys(keys: &Vec<ForeignKey>) -> (res: Vec<ForeignKey>)
    ensures
        res.deep_view() == keys.deep_view(),
{
    let mut out: Vec<ForeignKey> = Vec::new();
    let mut i: usize = 0;
    while i < keys.len()
        invariant
            0 <= i <= keys.len(),
            out.len() == i,
            forall|j: int| 0 <= j < i ==> out@[j].deep_view() == keys@[j].deep_view(),
        decreases keys.len() - i,
    {
        out.push(keys[i].clone());
        i += 1;
    }
    assert(out.deep_view() =~= keys.deep_view());
    out
}

impl Clone for Table {
    fn clone(&self) -> (res: Self)
        ensures
            res.deep_view() == self.deep_view(),
    {
        let primary_key = match &self.primary_key {
            Some(columns) => Some(copy_names(columns)),
            None => None,
        };
        Table {
            name: self.name.clone(),
            columns: copy_columns(&self.columns),
            indices: copy_indices(&self.indices),
            primary_key,
            foreign_keys: copy_foreign_keys(&self.foreign_keys),
        }
    }
}

impl Clone for Sequence {
    fn clone(&self) -> (res: Self)
        ensures
            res.deep_view() == self.deep_view(),
    {
        Sequence { name: self.name.clone() }
    }
}

impl Clone for SqlSchema {
    fn clone(&self) -> (res: Self)
        ensures
            res.deep_view() == self.deep_view(),
    {
        let mut tables: Vec<Table> = Vec::new();
        let mut i: usize = 0;
        while i < self.tables.len()
            invariant
                0 <= i <= self.tables.len(),
                tables.len() == i,
                forall|j: int|
                    0 <= j < i ==> tables@[j].deep_view() == self.tables@[j].deep_view(),
            decreases self.tables.len() - i,
        {
            tables.push(self.tables[i].clone());
            i += 1;
        }
        let mut sequences: Vec<Sequence> = Vec::new();
        let mut k: usize = 0;
        while k < self.sequences.len()
            invariant
                0 <= k <= self.sequences.len(),
                sequences.len() == k,
                forall|j: int|
                    0 <= j < k ==> sequences@[j].deep_view() == self.sequences@[j].deep_view(),
            decreases self.sequences.len() - k,
        {
            sequences.push(self.sequences[k].clone());
            k += 1;
        }
        assert(tables.deep_view() =~= self.tables.deep_view());
        assert(sequences.deep_view() =~= self.sequences.deep_view());
        SqlSchema { tables, sequences }
    }
}

impl Index {
    /// Whether two indices agree in name, columns and kind.
    pub fn same(&self, other: &Index) -> (res: bool)
        ensures
            res == (self.deep_view() == other.deep_view()),
    {
        self.name == other.name && same_names(&self.columns, &other.columns) && self.tpe
            == other.tpe
    }
}

impl ForeignKey {
    /// Whether two foreign keys agree in every part, the constraint name too.
    pub fn same(&self, other: &ForeignKey) -> (res: bool)
        ensures
            res == (self.deep_view() == other.deep_view()),
    {
        same_optional_text(&self.constraint_name, &other.constraint_name) && same_names(
            &self.columns,
            &other.columns,
        ) && self.referenced_table == other.referenced_table && same_names(
            &self.referenced_columns,
            &other.referenced_columns,
        ) && self.on_delete_action == other.on_delete_action
    }
}

impl Table {
    /// The place of the first column of that name.
    pub fn column_position(&self, name: &str) -> (res: Option<usize>)
        ensures
            res.is_some() == self.deep_view().has_column(name@),
            res matches Some(i) ==> i < self.columns.len() && position_of(
                column_names(self.deep_view().columns),
                name@,
            ) == Some(i as int),
    {
        let wanted = String::from_str(name);
        let ghost names = column_names(self.deep_view().columns);
        let mut i: usize = 0;
        while i < self.columns.len()
            invariant
                0 <= i <= self.columns.len(),
                wanted@ == name@,
                names == column_names(self.deep_view().columns),
                forall|j: int| 0 <= j < i ==> names[j] != name@,
            decreases self.columns.len() - i,
        {
            if self.columns[i].name == wanted {
                proof {
                    assert(names[i as int] == name@);
                    lemma_position_of(names, name@);
                }
                return Some(i);
            }
            assert(names[i as int] != name@);
            i += 1;
        }
        proof {
            lemma_position_of(names, name@);
        }
        None
    }

    /// The first column of that name.
    pub fn column(&self, name: &str) -> (res: Option<&Column>)
        ensures
            match res {
                Some(c) => self.deep_view().column(name@) == Some(c.deep_view()),
                None => self.deep_view().column(name@) is None,
            },
    {
        match self.column_position(name) {
            Some(i) => Some(&self.columns[i]),
            None => None,
        }
    }

    /// The column of that name, which the table must have.
    pub fn column_bang(&self, name: &str) -> (res: &Column)
        requires
            self.deep_view().has_column(name@),
        ensures
            self.deep_view().column(name@) == Some(res.deep_view()),
    {
        match self.column_position(name) {
            Some(i) => &self.columns[i],
            None => &self.columns[0],
        }
    }

    /// Whether the table has a column of that name.
    pub fn has_column(&self, name: &str) -> (res: bool)
        ensures
            res == self.deep_view().has_column(name@),
    {
        self.column_position(name).is_some()
    }

    /// The place of the first index of that name.
    pub fn index_position(&self, name: &str) -> (res: Option<usize>)
        ensures
            res.is_some() == (self.deep_view().index(name@) is Some),
            res matches Some(i) ==> i < self.indices.len() && position_of(
                index_names(self.deep_view().indices),
                name@,
            ) == Some(i as int),
    {
        let wanted = String::from_str(name);
        let ghost names = index_names(self.deep_view().indices);
        let mut i: usize = 0;
        while i < self.indices.len()
            invariant
                0 <= i <= self.indices.len(),
                wanted@ == name@,
                names == index_names(self.deep_view().indices),
                forall|j: int| 0 <= j < i ==> names[j] != name@,
            decreases self.indices.len() - i,
        {
            if self.indices[i].name == wanted {
                proof {
                    assert(names[i as int] == name@);
                    lemma_position_of(names, name@);
                }
                return Some(i);
            }
            assert(names[i as int] != name@);
            i += 1;
        }
        proof {
            lemma_position_of(names, name@);
        }
        None
    }

    /// The first index of that name.
    pub fn index(&self, name: &str) -> (res: Option<&Index>)
        ensures
            match res {
                Some(x) => self.deep_view().index(name@) == Some(x.deep_view()),
                None => self.deep_view().index(name@) is None,
            },
    {
        match self.index_position(name) {
            Some(i) => Some(&self.indices[i]),
            None => None,
        }
    }
}

impl SqlSchema {
    /// A schema without tables or sequences.
    pub fn empty() -> (res: SqlSchema)
        ensures
            res.deep_view().tables.len() == 0,
            res.deep_view().sequences.len() == 0,
    {
        SqlSchema { tables: Vec::new(), sequences: Vec::new() }
    }

    /// The place of the first table of that name.
    pub fn table_position(&self, name: &str) -> (res: Option<usize>)
        ensures
            res.is_some() == self.deep_view().has_table(name@),
            res matches Some(i) ==> i < self.tables.len() && position_of(
                table_names(self.deep_view().tables),
                name@,
            ) == Some(i as int),
    {
        let wanted = String::from_str(name);
        let ghost names = table_names(self.deep_view().tables);
        let mut i: usize = 0;
        while i < self.tables.len()
            invariant
                0 <= i <= self.tables.len(),
                wanted@ == name@,
                names == table_names(self.deep_view().tables),
                forall|j: int| 0 <= j < i ==> names[j] != name@,
            decreases self.tables.len() - i,
        {
            if self.tables[i].name == wanted {
                proof {
                    assert(names[i as int] == name@);
                    lemma_position_of(names, name@);
                }
                return Some(i);
            }
            assert(names[i as int] != name@);
            i += 1;
        }
        proof {
            lemma_position_of(names, name@);
        }
        None
    }

    /// The first table of that name.
    pub fn table(&self, name: &str) -> (res: Option<&Table>)
        ensures
            match res {
                Some(t) => self.deep_view().table(name@) == Some(t.deep_view()),
                None => self.deep_view().table(name@) is None,
            },
    {
        match self.table_position(name) {
            Some(i) => Some(&self.tables[i]),
            None => None,
        }
    }

    /// The table of that name, which the schema must have.
    pub fn table_bang(&self, name: &str) -> (res: &Table)
        requires
            self.deep_view().has_table(name@),
        ensures
            self.deep_view().table(name@) == Some(res.deep_view()),
    {
        match self.table_position(name) {
            Some(i) => &self.tables[i],
            None => &self.tables[0],
        }
    }

    /// Whether the schema has a table of that name.
    pub fn has_table(&self, name: &str) -> (res: bool)
        ensures
            res == self.deep_view().has_table(name@),
    {
        self.table_position(name).is_some()
    }

    /// The sequence of that name, if the schema has one.
    pub fn get_sequence(&self, name: &str) -> (res: Option<&Sequence>)
        ensures
            match res {
                Some(s) => self.deep_view().sequence(name@) == Some(s.deep_view()),
                None => self.deep_view().sequence(name@) is None,
            },
    {
        let wanted = String::from_str(name);
        let mut i: usize = 0;
        while i < self.sequences.len()
            invariant
                0 <= i <= self.sequences.len(),
                wanted@ == name@,
                forall|j: int| 0 <= j < i ==> self.deep_view().sequences[j] != name@,
            decreases self.sequences.len() - i,
        {
            if self.sequences[i].name == wanted {
                assert(self.deep_view().sequences[i as int] == name@);
                return Some(&self.sequences[i]);
            }
            assert(self.deep_view().sequences[i as int] != name@);
            i += 1;
        }
        None
    }
}

impl Column {
    /// Whether every row has to give the column a value.
    pub fn is_required(&self) -> (res: bool)
        ensures
            res == self.deep_view().is_required(),
    {
        self.tpe.arity == ColumnArity::Required
    }

    /// Whether two columns agree in name, type, default and auto-increment.
    pub fn same(&self, other: &Column) -> (res: bool)
        ensures
            res == (self.deep_view() == other.deep_view()),
    {
        self.name == other.name && self.tpe == other.tpe && same_optional_text(
            &self.default,
            &other.default,
        ) && self.auto_increment == other.auto_increment
    }
}

impl Table {
    /// Whether no two columns share a name, and no two indices do.
    pub fn is_well_formed(&self) -> (res: bool)
        ensures
            res == self.deep_view().wf(),
    {
        let mut columns: Vec<String> = Vec::new();
        let mut i: usize = 0;
        while i < self.columns.len()
            invariant
                0 <= i <= self.columns.len(),
                columns.len() == i,
                forall|j: int| 0 <= j < i ==> columns@[j]@ == self.columns@[j].name@,
            decreases self.columns.len() - i,
        {
            columns.push(self.columns[i].name.clone());
            i += 1;
        }
        assert(columns.deep_view() =~= column_names(self.deep_view().columns));
        let mut indices: Vec<String> = Vec::new();
        let mut k: usize = 0;
        while k < self.indices.len()
            invariant
                0 <= k <= self.indices.len(),
                indices.len() == k,
                forall|j: int| 0 <= j < k ==> indices@[j]@ == self.indices@[j].name@,
            decreases self.indices.len() - k,
        {
            indices.push(self.indices[k].name.clone());
            k += 1;
        }
        assert(indices.deep_view() =~= index_names(self.deep_view().indices));
        all_distinct(&columns) && all_distinct(&indices)
    }
}

impl SqlSchema {
    /// Whether no two tables share a name and every table is well formed.
    pub fn is_well_formed(&self) -> (res: bool)
        ensures
            res == self.deep_view().wf(),
    {
        let ghost tables = self.deep_view().tables;
        let mut names: Vec<String> = Vec::new();
        let mut i: usize = 0;
        while i < self.tables.len()
            invariant
                0 <= i <= self.tables.len(),
                tables == self.deep_view().tables,
                names.len() == i,
                forall|j: int| 0 <= j < i ==> names@[j]@ == self.tables@[j].name@,
                forall|j: int| 0 <= j < i ==> (#[trigger] tables[j]).wf(),
            decreases self.tables.len() - i,
        {
            if !self.tables[i].is_well_formed() {
                assert(!tables[i as int].wf());
                return false;
            }
            names.push(self.tables[i].name.clone());
            i += 1;
        }
        assert(names.deep_view() =~= table_names(self.deep_view().tables));
        all_distinct(&names)
    }
}

} // verus!
