//! What differs from one SQL dialect to the next: which changes can be made
//! in place, how foreign key constraints are named, how an integer key
//! counts up, and how a default value is written.

use vstd::prelude::*;
use crate::schema::{
    Column, ColumnTypeFamily, ColumnView, ForeignKey, ForeignKeyView, SchemaView, Sequence,
    SqlSchema, Table, TableView, copy_foreign_keys, copy_indices,
};
use crate::text::{copy_names, decimal, decimal_text, join, spec_join};

verus! {

/// The SQL dialects that plans are made for.
#[derive(Debug, Clone, Copy, PartialEq, Eq, Structural)]
pub enum SqlFamily {
    Postgres,
    Mysql,
    Sqlite,
}

/// How a dialect names a foreign key constraint that was given no name.
#[derive(Debug, Clone, Copy, PartialEq, Eq, Structural)]
pub enum KeyNaming {
    /// `<table>_<columns>_fkey`
    ColumnsFkey,
    /// `<table>_ibfk_<n>`, counted per table from 1
    NumberedIbfk,
    /// constraints stay without a name
    Unnamed,
}

/// How a dialect makes an integer key count up.
#[derive(Debug, Clone, Copy, PartialEq, Eq, Structural)]
pub enum AutoIncrement {
    /// a flag on the column
    Flag,
    /// a named sequence, and a default that takes its next value
    NamedSequence,
    /// an integer primary key counts up by itself
    ImplicitRowId,
}

/// The capabilities and conventions of one dialect.
#[derive(Debug, Clone, Copy, PartialEq, Eq, Structural)]
pub struct DialectPolicy {
    pub family: SqlFamily,
    /// whether columns can be altered and indices renamed in place
    pub alters_in_place: bool,
    pub key_naming: KeyNaming,
    pub auto_increment: AutoIncrement,
    /// whether a column can hold a list of scalar values
    pub scalar_lists: bool,
}

/// The policy of each dialect.
pub open spec fn policy_of(family: SqlFamily) -> DialectPolicy {
    match family {
        SqlFamily::Postgres => DialectPolicy {
            family,
            alters_in_place: true,
            key_naming: KeyNaming::ColumnsFkey,
            auto_increment: AutoIncrement::NamedSequence,
            scalar_lists: true,
        },
        SqlFamily::Mysql => DialectPolicy {
            family,
            alters_in_place: true,
            key_naming: KeyNaming::NumberedIbfk,
            auto_increment: AutoIncrement::Flag,
            scalar_lists: false,
        },
        SqlFamily::Sqlite => DialectPolicy {
            family,
            alters_in_place: false,
            key_naming: KeyNaming::Unnamed,
            auto_increment: AutoIncrement::ImplicitRowId,
            scalar_lists: false,
        },
    }
}

impl DialectPolicy {
    /// The policy of a dialect.
    pub fn of(family: SqlFamily) -> (res: DialectPolicy)
        ensures
            res == policy_of(family),
    {
        match family {
            SqlFamily::Postgres => DialectPolicy {
                family,
                alters_in_place: true,
                key_naming: KeyNaming::ColumnsFkey,
                auto_increment: AutoIncrement::NamedSequence,
                scalar_lists: true,
            },
            SqlFamily::Mysql => DialectPolicy {
                family,
                alters_in_place: true,
                key_naming: KeyNaming::NumberedIbfk,
                auto_increment: AutoIncrement::Flag,
                scalar_lists: false,
            },
            SqlFamily::Sqlite => DialectPolicy {
                family,
                alters_in_place: false,
                key_naming: KeyNaming::Unnamed,
                auto_increment: AutoIncrement::ImplicitRowId,
                scalar_lists: false,
            },
        }
    }
}

/// The name a dialect gives to the foreign key at `position` (counted from
/// 1) of a table.
pub open spec fn default_key_name(
    naming: KeyNaming,
    table: Seq<char>,
    columns: Seq<Seq<char>>,
    position: nat,
) -> Option<Seq<char>> {
    match naming {
        KeyNaming::ColumnsFkey => Some(table + "_"@ + spec_join(columns, "_"@) + "_fkey"@),
        KeyNaming::NumberedIbfk => Some(table + "_ibfk_"@ + decimal_text(position)),
        KeyNaming::Unnamed => None,
    }
}

/// A foreign key with the dialect's name where it had none.
pub open spec fn named_key(
    naming: KeyNaming,
    table: Seq<char>,
    key: ForeignKeyView,
    position: nat,
) -> ForeignKeyView {
    if key.constraint_name is Some {
        key
    } else {
        ForeignKeyView {
            constraint_name: default_key_name(naming, table, key.columns, position),
            ..key
        }
    }
}

/// The foreign keys of a table, each named by its place in the list.
pub open spec fn named_keys(naming: KeyNaming, table: Seq<char>, keys: Seq<ForeignKeyView>) -> Seq<
    ForeignKeyView,
> {
    Seq::new(keys.len(), |k: int| named_key(naming, table, keys[k], (k + 1) as nat))
}

/// Gives a foreign key the dialect's name where it has none.
pub fn name_key(naming: KeyNaming, table: &String, key: &ForeignKey, position: usize) -> (res:
    ForeignKey)
    ensures
        res.deep_view() == named_key(naming, table@, key.deep_view(), position as nat),
{
    let mut out = key.clone();
    if out.constraint_name.is_none() {
        match naming {
            KeyNaming::ColumnsFkey => {
                let mut name = table.clone();
                name.append("_");
                let joined = join(&key.columns, "_");
                name.append(joined.as_str());
                name.append("_fkey");
                out.constraint_name = Some(name);
            },
            KeyNaming::NumberedIbfk => {
                let mut name = table.clone();
                name.append("_ibfk_");
                let number = decimal(position);
                name.append(number.as_str());
                out.constraint_name = Some(name);
            },
            KeyNaming::Unnamed => {},
        }
    }
    out
}

/// Names the foreign keys of a table, each by its place in the list.
pub fn name_keys(naming: KeyNaming, table: &String, keys: &Vec<ForeignKey>) -> (res: Vec<
    ForeignKey,
>)
    ensures
        res.deep_view() == named_keys(naming, table@, keys.deep_view()),
{
    let mut out: Vec<ForeignKey> = Vec::new();
    let mut k: usize = 0;
    while k < keys.len()
        invariant
            0 <= k <= keys.len(),
            out.len() == k,
            forall|j: int|
                0 <= j < k ==> out@[j].deep_view() == named_key(
                    naming,
                    table@,
                    keys@[j].deep_view(),
                    (j + 1) as nat,
                ),
        decreases keys.len() - k,
    {
        out.push(name_key(naming, table, &keys[k], k + 1));
        k += 1;
    }
    assert(out.deep_view() =~= named_keys(naming, table@, keys.deep_view()));
    out
}

/// The name of the sequence behind a counting column.
pub open spec fn sequence_name(table: Seq<char>, column: Seq<char>) -> Seq<char> {
    table + "_"@ + column + "_seq"@
}

/// The default that takes the next value of a column's sequence.
pub open spec fn next_value_default(table: Seq<char>, column: Seq<char>) -> Seq<char> {
    "nextval(\""@ + sequence_name(table, column) + "\"::regclass)"@
}

/// Whether the column is the table's only primary key column and holds
/// integers.
pub open spec fn is_row_id(table: TableView, column: ColumnView) -> bool {
    table.primary_key == Some(seq![column.name]) && column.tpe.family == ColumnTypeFamily::Int
}

/// A column as the dialect holds it.
pub open spec fn specialized_column(
    strategy: AutoIncrement,
    table: TableView,
    column: ColumnView,
) -> ColumnView {
    match strategy {
        AutoIncrement::Flag => column,
        AutoIncrement::NamedSequence => if column.auto_increment {
            ColumnView {
                default: Some(next_value_default(table.name, column.name)),
                ..column
            }
        } else {
            column
        },
        AutoIncrement::ImplicitRowId => if is_row_id(table, column) {
            ColumnView { auto_increment: true, ..column }
        } else {
            column
        },
    }
}

/// A table as the dialect holds it.
pub open spec fn specialized_table(strategy: AutoIncrement, table: TableView) -> TableView {
    TableView {
        columns: Seq::new(
            table.columns.len(),
            |i: int| specialized_column(strategy, table, table.columns[i]),
        ),
        ..table
    }
}

/// The sequence that a column needs in the dialect, if it needs one.
pub open spec fn column_sequence(strategy: AutoIncrement, table: Seq<char>) -> spec_fn(
    ColumnView,
) -> Option<Seq<char>> {
    |c: ColumnView|
        if strategy == AutoIncrement::NamedSequence && c.auto_increment {
            Some(sequence_name(table, c.name))
        } else {
            None
        }
}

/// The sequences that the columns of a table need in the dialect.
pub open spec fn table_sequences(strategy: AutoIncrement) -> spec_fn(TableView) -> Seq<
    Seq<char>,
> {
    |t: TableView| t.columns.filter_map(column_sequence(strategy, t.name))
}

/// A schema as the dialect holds it: counting columns follow the dialect's
/// strategy, and the sequences they need are added after those the schema
/// has.
pub open spec fn specialized_schema(strategy: AutoIncrement, schema: SchemaView) -> SchemaView {
    SchemaView {
        tables: Seq::new(
            schema.tables.len(),
            |i: int| specialized_table(strategy, schema.tables[i]),
        ),
        sequences: schema.sequences + schema.tables.flat_map(table_sequences(strategy)),
    }
}

/// Whether the column is the table's only primary key column and holds
/// integers.
pub fn column_is_row_id(table: &Table, column: &Column) -> (res: bool)
    ensures
        res == is_row_id(table.deep_view(), column.deep_view()),
{
    match &table.primary_key {
        Some(columns) => {
            if columns.len() == 1 && columns[0] == column.name {
                assert(columns.deep_view() =~= seq![column.name@]);
                column.tpe.family == ColumnTypeFamily::Int
            } else {
                assert(columns.deep_view() != seq![column.name@]) by {
                    if columns.deep_view() == seq![column.name@] {
                        assert(columns.deep_view().len() == 1);
                        assert(columns.deep_view()[0] == column.name@);
                    }
                }
                false
            }
        },
        None => false,
    }
}

/// Brings a column into the form the dialect holds it in.
pub fn specialize_column(strategy: AutoIncrement, table: &Table, column: &Column) -> (res: Column)
    ensures
        res.deep_view() == specialized_column(strategy, table.deep_view(), column.deep_view()),
{
    let mut out = column.clone();
    match strategy {
        AutoIncrement::Flag => {},
        AutoIncrement::NamedSequence => {
            if column.auto_increment {
                let mut text = String::from_str("nextval(\"");
                text.append(table.name.as_str());
                text.append("_");
                text.append(column.name.as_str());
                text.append("_seq");
                text.append("\"::regclass)");
                assert(text@ =~= next_value_default(table.name@, column.name@));
                out.default = Some(text);
            }
        },
        AutoIncrement::ImplicitRowId => {
            if column_is_row_id(table, column) {
                out.auto_increment = true;
            }
        },
    }
    out
}

/// Brings a table into the form the dialect holds it in.
pub fn specialize_table(strategy: AutoIncrement, table: &Table) -> (res: Table)
    ensures
        res.deep_view() == specialized_table(strategy, table.deep_view()),
{
    let mut columns: Vec<Column> = Vec::new();
    let mut i: usize = 0;
    while i < table.columns.len()
        invariant
            0 <= i <= table.columns.len(),
            columns.len() == i,
            forall|j: int|
                0 <= j < i ==> columns@[j].deep_view() == specialized_column(
                    strategy,
                    table.deep_view(),
                    table.columns@[j].deep_view(),
                ),
        decreases table.columns.len() - i,
    {
        columns.push(specialize_column(strategy, table, &table.columns[i]));
        i += 1;
    }
    assert(columns.deep_view() =~= specialized_table(strategy, table.deep_view()).columns);
    let primary_key = match &table.primary_key {
        Some(names) => Some(copy_names(names)),
        None => None,
    };
    Table {
        name: table.name.clone(),
        columns,
        indices: copy_indices(&table.indices),
        primary_key,
        foreign_keys: copy_foreign_keys(&table.foreign_keys),
    }
}

/// The sequences that the columns of a table need in the dialect.
pub fn sequences_of_table(strategy: AutoIncrement, table: &Table) -> (res: Vec<Sequence>)
    ensures
        res.deep_view() == table_sequences(strategy)(table.deep_view()),
{
    let ghost src = table.deep_view().columns;
    let ghost f = column_sequence(strategy, table.name@);
    let mut out: Vec<Sequence> = Vec::new();
    let mut i: usize = 0;
    while i < table.columns.len()
        invariant
            0 <= i <= table.columns.len(),
            src == table.deep_view().columns,
            f == column_sequence(strategy, table.name@),
            out.deep_view() == src.take(i as int).filter_map(f),
        decreases table.columns.len() - i,
    {
        let ghost before = out.deep_view();
        proof {
            src.lemma_filter_map_take_succ(f, i as int);
        }
        let c = &table.columns[i];
        if strategy == AutoIncrement::NamedSequence && c.auto_increment {
            let mut name = table.name.clone();
            name.append("_");
            name.append(c.name.as_str());
            name.append("_seq");
            out.push(Sequence { name });
            assert(out.deep_view() =~= before.push(sequence_name(table.name@, c.name@)));
        }
        i += 1;
    }
    assert(src.take(table.columns.len() as int) =~= src);
    out
}

impl DialectPolicy {
    /// Brings a schema into the form the dialect holds it in.
    pub fn specialize_schema(&self, schema: &SqlSchema) -> (res: SqlSchema)
        ensures
            res.deep_view() == specialized_schema(self.auto_increment, schema.deep_view()),
    {
        let strategy = self.auto_increment;
        let ghost src = schema.deep_view().tables;
        let ghost f = table_sequences(strategy);
        let mut tables: Vec<Table> = Vec::new();
        let mut sequences: Vec<Sequence> = Vec::new();
        let mut k: usize = 0;
        while k < schema.sequences.len()
            invariant
                0 <= k <= schema.sequences.len(),
                sequences.len() == k,
                forall|j: int| 0 <= j < k ==> sequences@[j].name@ == schema.sequences@[j].name@,
            decreases schema.sequences.len() - k,
        {
            sequences.push(schema.sequences[k].clone());
            k += 1;
        }
        assert(sequences.deep_view() =~= schema.deep_view().sequences);
        let mut i: usize = 0;
        while i < schema.tables.len()
            invariant
                0 <= i <= schema.tables.len(),
                strategy == self.auto_increment,
                src == schema.deep_view().tables,
                f == table_sequences(strategy),
                tables.len() == i,
                forall|j: int|
                    0 <= j < i ==> tables@[j].deep_view() == specialized_table(
                        strategy,
                        schema.tables@[j].deep_view(),
                    ),
                sequences.deep_view() == schema.deep_view().sequences + src.take(
                    i as int,
                ).flat_map(f),
            decreases schema.tables.len() - i,
        {
            let ghost before = sequences.deep_view();
            proof {
                src.lemma_flat_map_take_append(f, i as int);
            }
            let t = &schema.tables[i];
            tables.push(specialize_table(strategy, t));
            let mut more = sequences_of_table(strategy, t);
            let ghost added = more.deep_view();
            sequences.append(&mut more);
            assert(sequences.deep_view() =~= before + added);
            i += 1;
        }
        assert(src.take(schema.tables.len() as int) =~= src);
        assert(tables.deep_view() =~= specialized_schema(strategy, schema.deep_view()).tables);
        SqlSchema { tables, sequences }
    }
}

/// A default value without the single quotes around it, where it has them.
pub open spec fn unquoted(text: Seq<char>) -> Seq<char> {
    if text.len() >= 2 && text[0] == '\'' && text[text.len() - 1] == '\'' {
        text.subrange(1, text.len() - 1)
    } else {
        text
    }
}

/// A column with its default value unquoted.
pub open spec fn normalized_column(column: ColumnView) -> ColumnView {
    ColumnView {
        default: match column.default {
            Some(text) => Some(unquoted(text)),
            None => None,
        },
        ..column
    }
}

/// A table with the default values of its columns unquoted.
pub open spec fn normalized_table(table: TableView) -> TableView {
    TableView {
        columns: Seq::new(table.columns.len(), |i: int| normalized_column(table.columns[i])),
        ..table
    }
}

/// A schema with every default value unquoted, so that two ways of writing
/// one value compare equal.
pub open spec fn normalized_schema(schema: SchemaView) -> SchemaView {
    SchemaView {
        tables: Seq::new(schema.tables.len(), |i: int| normalized_table(schema.tables[i])),
        ..schema
    }
}

/// Takes the single quotes from around a default value, where it has them.
pub fn unquote(text: &String) -> (res: String)
    ensures
        res@ == unquoted(text@),
{
    let s = text.as_str();
    let n = s.unicode_len();
    if n >= 2 && s.get_char(0) == '\'' && s.get_char(n - 1) == '\'' {
        String::from_str(s.substring_char(1, n - 1))
    } else {
        text.clone()
    }
}

/// Unquotes the default value of a column.
pub fn normalize_column(column: &Column) -> (res: Column)
    ensures
        res.deep_view() == normalized_column(column.deep_view()),
{
    Column {
        name: column.name.clone(),
        tpe: column.tpe,
        default: match &column.default {
            Some(text) => Some(unquote(text)),
            None => None,
        },
        auto_increment: column.auto_increment,
    }
}

/// Unquotes the default values of a table's columns.
pub fn normalize_table(table: &Table) -> (res: Table)
    ensures
        res.deep_view() == normalized_table(table.deep_view()),
{
    let mut columns: Vec<Column> = Vec::new();
    let mut i: usize = 0;
    while i < table.columns.len()
        invariant
            0 <= i <= table.columns.len(),
            columns.len() == i,
            forall|j: int|
                0 <= j < i ==> columns@[j].deep_view() == normalized_column(
                    table.columns@[j].deep_view(),
                ),
        decreases table.columns.len() - i,
    {
        columns.push(normalize_column(&table.columns[i]));
        i += 1;
    }
    assert(columns.deep_view() =~= normalized_table(table.deep_view()).columns);
    let primary_key = match &table.primary_key {
        Some(names) => Some(copy_names(names)),
        None => None,
    };
    Table {
        name: table.name.clone(),
        columns,
        indices: copy_indices(&table.indices),
        primary_key,
        foreign_keys: copy_foreign_keys(&table.foreign_keys),
    }
}

/// Unquotes every default value of a schema.
pub fn normalize_schema(schema: &SqlSchema) -> (res: SqlSchema)
    ensures
        res.deep_view() == normalized_schema(schema.deep_view()),
{
    let mut tables: Vec<Table> = Vec::new();
    let mut i: usize = 0;
    while i < schema.tables.len()
        invariant
            0 <= i <= schema.tables.len(),
            tables.len() == i,
            forall|j: int|
                0 <= j < i ==> tables@[j].deep_view() == normalized_table(
                    schema.tables@[j].deep_view(),
                ),
        decreases schema.tables.len() - i,
    {
        tables.push(normalize_table(&schema.tables[i]));
        i += 1;
    }
    assert(tables.deep_view() =~= normalized_schema(schema.deep_view()).tables);
    let mut sequences: Vec<Sequence> = Vec::new();
    let mut k: usize = 0;
    while k < schema.sequences.len()
        invariant
            0 <= k <= schema.sequences.len(),
            sequences.len() == k,
            forall|j: int| 0 <= j < k ==> sequences@[j].name@ == schema.sequences@[j].name@,
        decreases schema.sequences.len() - k,
    {
        sequences.push(schema.sequences[k].clone());
        k += 1;
    }
    assert(sequences.deep_view() =~= schema.deep_view().sequences);
    SqlSchema { tables, sequences }
}

/// The character a dialect puts around a name.
pub open spec fn quote_of(family: SqlFamily) -> char {
    match family {
        SqlFamily::Mysql => '`',
        _ => '"',
    }
}

/// A name with each quote character in it written twice.
pub open spec fn escaped(name: Seq<char>, quote: char) -> Seq<char>
    decreases name.len(),
{
    if name.len() == 0 {
        Seq::empty()
    } else if name.last() == quote {
        escaped(name.drop_last(), quote) + seq![quote, quote]
    } else {
        escaped(name.drop_last(), quote) + seq![name.last()]
    }
}

/// A name as the dialect writes it, so that a name that is also a keyword
/// can be told from the keyword: between quote characters, with each quote
/// character in it written twice.
pub open spec fn quoted(family: SqlFamily, name: Seq<char>) -> Seq<char> {
    seq![quote_of(family)] + escaped(name, quote_of(family)) + seq![quote_of(family)]
}

impl DialectPolicy {
    /// Writes the name of a table, a column or an index as the dialect
    /// takes it.
    pub fn quote_name(&self, name: &str) -> (res: String)
        ensures
            res@ == quoted(self.family, name@),
    {
        let (mark, quote) = match self.family {
            SqlFamily::Mysql => ("`", '`'),
            _ => ("\"", '"'),
        };
        proof {
            reveal_strlit("`");
            reveal_strlit("\"");
            assert(mark@ =~= seq![quote]);
        }
        let n = name.unicode_len();
        let mut out = String::from_str(mark);
        let mut i: usize = 0;
        assert(name@.take(0) =~= Seq::<char>::empty());
        while i < n
            invariant
                0 <= i <= n,
                n == name@.len(),
                quote == quote_of(self.family),
                mark@ == seq![quote],
                out@ == seq![quote] + escaped(name@.take(i as int), quote),
            decreases n - i,
        {
            proof {
                assert(name@.take(i + 1).drop_last() =~= name@.take(i as int));
                assert(name@.take(i + 1).last() == name@[i as int]);
                assert(name@.subrange(i as int, i + 1) =~= seq![name@[i as int]]);
            }
            let ghost before = out@;
            if name.get_char(i) == quote {
                out.append(mark);
                out.append(mark);
                assert(out@ =~= before + seq![quote, quote]);
            } else {
                out.append(name.substring_char(i, i + 1));
                assert(out@ =~= before + seq![name@[i as int]]);
            }
            i += 1;
        }
        assert(name@.take(n as int) =~= name@);
        out.append(mark);
        out
    }
}

} // verus!
