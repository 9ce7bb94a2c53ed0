use migration_planner::dialect::{
    name_key, name_keys, normalize_schema, unquote, AutoIncrement, DialectPolicy, KeyNaming,
    SqlFamily,
};
use migration_planner::rewriter::{
    columns_to_carry, name_step, recreation_steps, substitute_recreations,
};
use migration_planner::schema::{
    Column, ColumnArity, ColumnType, ColumnTypeFamily, ForeignKey, ForeignKeyAction, Index,
    IndexType, Sequence, SqlSchema, Table,
};
use migration_planner::steps::{
    AlterColumn, AlterIndex, AlterTable, CopyRows, CreateForeignKey, CreateIndex, CreateTable,
    DropForeignKey, DropIndex, DropTable, RenameTable, SqlMigrationStep, TableChange,
};

fn column(name: &str, family: ColumnTypeFamily) -> Column {
    Column {
        name: name.to_string(),
        tpe: ColumnType { family, arity: ColumnArity::Required },
        default: None,
        auto_increment: false,
    }
}

fn key(name: Option<&str>, columns: &[&str], to: &str) -> ForeignKey {
    ForeignKey {
        constraint_name: name.map(|n| n.to_string()),
        columns: columns.iter().map(|c| c.to_string()).collect(),
        referenced_table: to.to_string(),
        referenced_columns: vec!["id".to_string()],
        on_delete_action: ForeignKeyAction::Restrict,
    }
}

fn index(name: &str, columns: &[&str]) -> Index {
    Index {
        name: name.to_string(),
        columns: columns.iter().map(|c| c.to_string()).collect(),
        tpe: IndexType::Unique,
    }
}

fn table(name: &str, columns: Vec<Column>) -> Table {
    Table {
        name: name.to_string(),
        columns,
        indices: vec![],
        primary_key: Some(vec!["id".to_string()]),
        foreign_keys: vec![],
    }
}

#[test]
fn the_policy_of_each_dialect() {
    let pg = DialectPolicy::of(SqlFamily::Postgres);
    assert!(pg.alters_in_place && pg.scalar_lists);
    assert_eq!(pg.key_naming, KeyNaming::ColumnsFkey);
    assert_eq!(pg.auto_increment, AutoIncrement::NamedSequence);
    let my = DialectPolicy::of(SqlFamily::Mysql);
    assert!(my.alters_in_place && !my.scalar_lists);
    assert_eq!(my.key_naming, KeyNaming::NumberedIbfk);
    assert_eq!(my.auto_increment, AutoIncrement::Flag);
    let lite = DialectPolicy::of(SqlFamily::Sqlite);
    assert!(!lite.alters_in_place && !lite.scalar_lists);
    assert_eq!(lite.key_naming, KeyNaming::Unnamed);
    assert_eq!(lite.auto_increment, AutoIncrement::ImplicitRowId);
    assert_eq!(lite.family, SqlFamily::Sqlite);
}

#[test]
fn foreign_keys_are_named_as_the_dialect_names_them() {
    let table_name = "A".to_string();
    let k = key(None, &["b"], "B");
    assert_eq!(
        name_key(KeyNaming::ColumnsFkey, &table_name, &k, 1).constraint_name,
        Some("A_b_fkey".to_owned())
    );
    assert_eq!(
        name_key(KeyNaming::NumberedIbfk, &table_name, &k, 1).constraint_name,
        Some("A_ibfk_1".to_owned())
    );
    assert_eq!(name_key(KeyNaming::Unnamed, &table_name, &k, 1).constraint_name, None);
    let explicit = key(Some("mine"), &["b"], "B");
    assert_eq!(
        name_key(KeyNaming::NumberedIbfk, &table_name, &explicit, 3).constraint_name,
        Some("mine".to_owned())
    );
    let two = key(None, &["x", "y"], "B");
    assert_eq!(
        name_key(KeyNaming::ColumnsFkey, &table_name, &two, 12).constraint_name,
        Some("A_x_y_fkey".to_owned())
    );
    assert_eq!(
        name_key(KeyNaming::NumberedIbfk, &table_name, &two, 12).constraint_name,
        Some("A_ibfk_12".to_owned())
    );
    let join = "_AToB".to_string();
    let named = name_keys(KeyNaming::NumberedIbfk, &join, &vec![key(None, &["A"], "A"), key(None, &["B"], "B")]);
    assert_eq!(named[0].constraint_name, Some("_AToB_ibfk_1".to_owned()));
    assert_eq!(named[1].constraint_name, Some("_AToB_ibfk_2".to_owned()));
    let named = name_keys(KeyNaming::ColumnsFkey, &join, &vec![key(None, &["A"], "A"), key(None, &["B"], "B")]);
    assert_eq!(named[0].constraint_name, Some("_AToB_A_fkey".to_owned()));
    assert_eq!(named[1].constraint_name, Some("_AToB_B_fkey".to_owned()));
    assert_eq!(named[1].columns, vec!["B".to_string()]);
}

fn counting_schema(counts: bool) -> SqlSchema {
    let mut id = column("myId", ColumnTypeFamily::Int);
    id.auto_increment = counts;
    let mut t = table("Test", vec![id, column("text", ColumnTypeFamily::String)]);
    t.primary_key = Some(vec!["myId".to_string()]);
    SqlSchema { tables: vec![t], sequences: vec![] }
}

#[test]
fn adding_an_id_field_of_type_int_must_work() {
    for family in [SqlFamily::Postgres, SqlFamily::Mysql] {
        let result = DialectPolicy::of(family).specialize_schema(&counting_schema(false));
        let column = result.table("Test").unwrap().column("myId").unwrap();
        assert_eq!(column.auto_increment, false);
        assert_eq!(column.default, None);
        assert_eq!(result.sequences, vec![]);
    }
}

#[test]
fn adding_an_id_field_of_type_int_must_work_for_sqlite() {
    let result = DialectPolicy::of(SqlFamily::Sqlite).specialize_schema(&counting_schema(false));
    let table = result.table("Test").unwrap();
    assert_eq!(table.column("myId").unwrap().auto_increment, true);
    assert_eq!(table.column("text").unwrap().auto_increment, false);
}

#[test]
fn adding_an_id_field_of_type_int_with_autoincrement_must_work() {
    for family in [SqlFamily::Postgres, SqlFamily::Mysql, SqlFamily::Sqlite] {
        let result = DialectPolicy::of(family).specialize_schema(&counting_schema(true));
        let column = result.table("Test").unwrap().column("myId").unwrap();
        match family {
            SqlFamily::Postgres => {
                let sequence = result.get_sequence("Test_myId_seq").expect("sequence must exist");
                let default = column.default.as_ref().expect("Must have nextval default");
                assert_eq!(default.contains(&sequence.name), true);
                assert_eq!(default, &format!("nextval(\"{}\"::regclass)", sequence.name));
                assert_eq!(result.sequences, vec![Sequence { name: "Test_myId_seq".to_string() }]);
            }
            _ => {
                assert_eq!(column.auto_increment, true);
                assert_eq!(column.default, None);
                assert!(result.get_sequence("Test_myId_seq").is_none());
            }
        }
    }
}

#[test]
fn a_text_key_is_no_row_id() {
    let t = table("T", vec![column("id", ColumnTypeFamily::String)]);
    let schema = SqlSchema { tables: vec![t], sequences: vec![] };
    let result = DialectPolicy::of(SqlFamily::Sqlite).specialize_schema(&schema);
    assert_eq!(result, schema);
    let mut two = table("T", vec![column("a", ColumnTypeFamily::Int), column("b", ColumnTypeFamily::Int)]);
    two.primary_key = Some(vec!["a".to_string(), "b".to_string()]);
    let schema = SqlSchema { tables: vec![two], sequences: vec![] };
    assert_eq!(DialectPolicy::of(SqlFamily::Sqlite).specialize_schema(&schema), schema);
}

#[test]
fn default_values_are_unquoted() {
    assert_eq!(unquote(&"'potassium'".to_string()), "potassium");
    assert_eq!(unquote(&"potassium".to_string()), "potassium");
    assert_eq!(unquote(&"'".to_string()), "'");
    assert_eq!(unquote(&"''".to_string()), "");
    assert_eq!(unquote(&"".to_string()), "");
    assert_eq!(unquote(&"'a".to_string()), "'a");
    assert_eq!(unquote(&"'é'".to_string()), "é");
    let mut c = column("contains", ColumnTypeFamily::String);
    c.default = Some("'potassium'".to_string());
    let schema = SqlSchema {
        tables: vec![table("Fruit", vec![column("id", ColumnTypeFamily::Int), c])],
        sequences: vec![Sequence { name: "s".to_string() }],
    };
    let result = normalize_schema(&schema);
    assert_eq!(
        result.table("Fruit").unwrap().column("contains").unwrap().default.as_deref(),
        Some("potassium")
    );
    assert_eq!(result.table("Fruit").unwrap().column("id").unwrap().default, None);
    assert_eq!(result.sequences, schema.sequences);
}

fn old_and_new() -> (Table, Table) {
    let mut actual = table(
        "A",
        vec![
            column("id", ColumnTypeFamily::Int),
            column("field", ColumnTypeFamily::String),
            column("gone", ColumnTypeFamily::String),
        ],
    );
    actual.indices = vec![index("A.field", &["field"])];
    actual.foreign_keys = vec![key(None, &["field"], "B")];
    let mut desired = table(
        "A",
        vec![
            column("id", ColumnTypeFamily::Int),
            column("other", ColumnTypeFamily::String),
            column("field", ColumnTypeFamily::Int),
        ],
    );
    desired.indices = vec![index("A.field", &["field"]), index("A.other", &["other"])];
    desired.foreign_keys = vec![key(None, &["other"], "C")];
    (desired, actual)
}

fn expected_recreation(desired: &Table, actual: &Table) -> Vec<SqlMigrationStep> {
    vec![
        SqlMigrationStep::DropIndex(DropIndex { table: "A".into(), name: "A.field".into() }),
        SqlMigrationStep::DropForeignKey(DropForeignKey {
            table: "A".into(),
            foreign_key: actual.foreign_keys[0].clone(),
        }),
        SqlMigrationStep::CreateTable(CreateTable {
            table: Table {
                name: "new_A".into(),
                columns: desired.columns.clone(),
                indices: vec![],
                primary_key: Some(vec!["id".to_string()]),
                foreign_keys: vec![],
            },
        }),
        SqlMigrationStep::CopyRows(CopyRows {
            from: "A".into(),
            to: "new_A".into(),
            columns: vec!["id".to_string(), "field".to_string()],
        }),
        SqlMigrationStep::DropTable(DropTable { name: "A".into() }),
        SqlMigrationStep::RenameTable(RenameTable { name: "new_A".into(), new_name: "A".into() }),
        SqlMigrationStep::CreateIndex(CreateIndex { table: "A".into(), index: desired.indices[0].clone() }),
        SqlMigrationStep::CreateIndex(CreateIndex { table: "A".into(), index: desired.indices[1].clone() }),
        SqlMigrationStep::CreateForeignKey(CreateForeignKey {
            table: "A".into(),
            foreign_key: desired.foreign_keys[0].clone(),
        }),
    ]
}

#[test]
fn a_table_is_made_anew_step_by_step() {
    let (desired, actual) = old_and_new();
    assert_eq!(columns_to_carry(&desired, &actual), vec!["id".to_string(), "field".to_string()]);
    assert_eq!(recreation_steps(&desired, &actual), expected_recreation(&desired, &actual));
}

fn alter(table: &str) -> SqlMigrationStep {
    SqlMigrationStep::AlterTable(AlterTable {
        table: table.into(),
        changes: vec![TableChange::AlterColumn(AlterColumn {
            name: "field".into(),
            column: column("field", ColumnTypeFamily::Int),
        })],
    })
}

#[test]
fn sqlite_must_recreate_indexes() {
    let (desired, actual) = old_and_new();
    let other = table("B", vec![column("id", ColumnTypeFamily::Int)]);
    let desired_schema = SqlSchema { tables: vec![desired.clone(), other.clone()], sequences: vec![] };
    let actual_schema = SqlSchema { tables: vec![actual.clone(), other], sequences: vec![] };
    let on_b = SqlMigrationStep::CreateIndex(CreateIndex { table: "B".into(), index: index("B.id", &["id"]) });
    let steps = vec![
        SqlMigrationStep::DropForeignKey(DropForeignKey {
            table: "A".into(),
            foreign_key: actual.foreign_keys[0].clone(),
        }),
        on_b.clone(),
        alter("A"),
        SqlMigrationStep::CreateIndex(CreateIndex { table: "A".into(), index: desired.indices[1].clone() }),
    ];
    let mut expected = expected_recreation(&desired, &actual);
    expected.push(on_b);
    assert_eq!(substitute_recreations(&steps, &desired_schema, &actual_schema), expected);
    // a dialect that alters in place keeps the steps
    let kept = DialectPolicy::of(SqlFamily::Mysql).rewrite_steps(&steps, &desired_schema, &actual_schema);
    assert_eq!(kept.len(), 4);
    assert_eq!(kept[2], alter("A"));
    // the dialect that does not alter in place makes the table anew
    let anew = DialectPolicy::of(SqlFamily::Sqlite).rewrite_steps(&steps, &desired_schema, &actual_schema);
    assert_eq!(anew.len(), expected.len());
    assert!(anew.iter().any(|s| matches!(s, SqlMigrationStep::CopyRows(_))));
    assert!(!anew.iter().any(|s| matches!(s, SqlMigrationStep::AlterTable(_))));
}

#[test]
fn an_index_rename_makes_the_table_anew_where_nothing_is_renamed_in_place() {
    let (desired, actual) = old_and_new();
    let desired_schema = SqlSchema { tables: vec![desired.clone()], sequences: vec![] };
    let actual_schema = SqlSchema { tables: vec![actual.clone()], sequences: vec![] };
    let steps = vec![SqlMigrationStep::AlterIndex(AlterIndex {
        table: "A".into(),
        index_name: "x".into(),
        index_new_name: "y".into(),
    })];
    assert_eq!(
        substitute_recreations(&steps, &desired_schema, &actual_schema),
        expected_recreation(&desired, &actual)
    );
    // steps on a table that is not on both sides stay
    let elsewhere = vec![SqlMigrationStep::AlterIndex(AlterIndex {
        table: "Z".into(),
        index_name: "x".into(),
        index_new_name: "y".into(),
    })];
    assert_eq!(substitute_recreations(&elsewhere, &desired_schema, &actual_schema), elsewhere);
    // creating an index alone is done in place
    let create = vec![SqlMigrationStep::CreateIndex(CreateIndex {
        table: "A".into(),
        index: desired.indices[1].clone(),
    })];
    assert_eq!(substitute_recreations(&create, &desired_schema, &actual_schema), create);
}

#[test]
fn created_foreign_keys_get_their_names() {
    let mut a = table("A", vec![column("id", ColumnTypeFamily::Int), column("b", ColumnTypeFamily::Int), column("c", ColumnTypeFamily::Int)]);
    a.foreign_keys = vec![key(None, &["b"], "B"), key(None, &["c"], "C")];
    let desired = SqlSchema { tables: vec![a.clone()], sequences: vec![] };
    let create_table = SqlMigrationStep::CreateTable(CreateTable { table: a.clone() });
    match name_step(KeyNaming::NumberedIbfk, &desired, &create_table) {
        SqlMigrationStep::CreateTable(s) => {
            assert_eq!(s.table.foreign_keys[0].constraint_name, Some("A_ibfk_1".to_owned()));
            assert_eq!(s.table.foreign_keys[1].constraint_name, Some("A_ibfk_2".to_owned()));
            assert_eq!(s.table.columns, a.columns);
        }
        other => panic!("a table is created, not {:?}", other),
    }
    let create_key = SqlMigrationStep::CreateForeignKey(CreateForeignKey {
        table: "A".into(),
        foreign_key: key(None, &["c"], "C"),
    });
    match name_step(KeyNaming::NumberedIbfk, &desired, &create_key) {
        SqlMigrationStep::CreateForeignKey(s) => {
            assert_eq!(s.foreign_key.constraint_name, Some("A_ibfk_2".to_owned()))
        }
        other => panic!("a key is created, not {:?}", other),
    }
    match name_step(KeyNaming::ColumnsFkey, &desired, &create_key) {
        SqlMigrationStep::CreateForeignKey(s) => {
            assert_eq!(s.foreign_key.constraint_name, Some("A_c_fkey".to_owned()))
        }
        other => panic!("a key is created, not {:?}", other),
    }
    assert_eq!(name_step(KeyNaming::Unnamed, &desired, &create_key), create_key);
    let stranger = SqlMigrationStep::CreateForeignKey(CreateForeignKey {
        table: "A".into(),
        foreign_key: key(None, &["z"], "Z"),
    });
    match name_step(KeyNaming::NumberedIbfk, &desired, &stranger) {
        SqlMigrationStep::CreateForeignKey(s) => {
            assert_eq!(s.foreign_key.constraint_name, Some("A_ibfk_0".to_owned()))
        }
        other => panic!("a key is created, not {:?}", other),
    }
    let drop = SqlMigrationStep::DropTable(DropTable { name: "A".into() });
    assert_eq!(name_step(KeyNaming::ColumnsFkey, &desired, &drop), drop);
}

#[test]
fn can_handle_reserved_sql_keywords_for_model_name() {
    assert_eq!(DialectPolicy::of(SqlFamily::Postgres).quote_name("Group"), "\"Group\"");
    assert_eq!(DialectPolicy::of(SqlFamily::Sqlite).quote_name("Group"), "\"Group\"");
    assert_eq!(DialectPolicy::of(SqlFamily::Mysql).quote_name("Group"), "`Group`");
}

#[test]
fn quote_characters_in_a_name_are_written_twice() {
    assert_eq!(DialectPolicy::of(SqlFamily::Postgres).quote_name("a\"b"), "\"a\"\"b\"");
    assert_eq!(DialectPolicy::of(SqlFamily::Postgres).quote_name("a`b"), "\"a`b\"");
    assert_eq!(DialectPolicy::of(SqlFamily::Mysql).quote_name("a`b"), "`a``b`");
    assert_eq!(DialectPolicy::of(SqlFamily::Mysql).quote_name("``"), "``````");
    assert_eq!(DialectPolicy::of(SqlFamily::Mysql).quote_name(""), "``");
    assert_eq!(DialectPolicy::of(SqlFamily::Sqlite).quote_name("né\""), "\"né\"\"\"");
}
