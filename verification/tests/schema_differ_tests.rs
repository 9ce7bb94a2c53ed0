use migration_planner::schema::{
    Column, ColumnArity, ColumnType, ColumnTypeFamily, ForeignKey, ForeignKeyAction, Index,
    IndexType, Sequence, SqlSchema, Table,
};
use migration_planner::schema_differ::{
    comes_by_rename, count_free_twins, diff_columns, diff_schemas, find_rename_target,
    holds_index, keys_match,
};
use migration_planner::steps::{
    AddColumn, AlterColumn, AlterIndex, AlterTable, CreateForeignKey, CreateIndex,
    CreateTable, DropColumn, DropForeignKey, DropIndex, DropTable, SqlMigrationStep, TableChange,
};

fn column(name: &str, family: ColumnTypeFamily, arity: ColumnArity) -> Column {
    Column {
        name: name.to_string(),
        tpe: ColumnType { family, arity },
        default: None,
        auto_increment: false,
    }
}

fn unique(name: &str, columns: &[&str]) -> Index {
    Index {
        name: name.to_string(),
        columns: columns.iter().map(|c| c.to_string()).collect(),
        tpe: IndexType::Unique,
    }
}

fn table_a(indices: Vec<Index>) -> Table {
    Table {
        name: "A".to_string(),
        columns: vec![
            column("id", ColumnTypeFamily::Int, ColumnArity::Required),
            column("field", ColumnTypeFamily::String, ColumnArity::Required),
            column("secondField", ColumnTypeFamily::Int, ColumnArity::Required),
        ],
        indices,
        primary_key: Some(vec!["id".to_string()]),
        foreign_keys: vec![],
    }
}

fn schema(tables: Vec<Table>) -> SqlSchema {
    SqlSchema { tables, sequences: vec![] }
}

#[test]
fn index_renaming_must_work() {
    let actual = schema(vec![table_a(vec![unique("customName", &["field", "secondField"])])]);
    let desired = schema(vec![table_a(vec![unique("customNameA", &["field", "secondField"])])]);
    let expected_steps = vec![SqlMigrationStep::AlterIndex(AlterIndex {
        table: "A".into(),
        index_new_name: "customNameA".into(),
        index_name: "customName".into(),
    })];
    assert_eq!(diff_schemas(&desired, &actual), expected_steps);
}

#[test]
fn index_updates_with_rename_must_work() {
    let actual = schema(vec![table_a(vec![unique("customName", &["field", "secondField"])])]);
    let desired = schema(vec![table_a(vec![unique("customNameA", &["field", "id"])])]);
    let expected_steps = vec![
        SqlMigrationStep::DropIndex(DropIndex { table: "A".into(), name: "customName".into() }),
        SqlMigrationStep::CreateIndex(CreateIndex {
            table: "A".into(),
            index: Index {
                name: "customNameA".into(),
                columns: vec!["field".into(), "id".into()],
                tpe: IndexType::Unique,
            },
        }),
    ];
    assert_eq!(diff_schemas(&desired, &actual), expected_steps);
}

fn normal(name: &str, columns: &[&str]) -> Index {
    let mut i = unique(name, columns);
    i.tpe = IndexType::Normal;
    i
}

fn key(name: Option<&str>, column: &str, to: &str, action: ForeignKeyAction) -> ForeignKey {
    ForeignKey {
        constraint_name: name.map(|n| n.to_string()),
        columns: vec![column.to_string()],
        referenced_table: to.to_string(),
        referenced_columns: vec!["id".to_string()],
        on_delete_action: action,
    }
}

fn table(name: &str, columns: Vec<Column>) -> Table {
    Table {
        name: name.to_string(),
        columns,
        indices: vec![],
        primary_key: Some(vec!["id".to_string()]),
        foreign_keys: vec![],
    }
}

fn whole(name: &str) -> Column {
    column(name, ColumnTypeFamily::Int, ColumnArity::Required)
}

#[test]
fn a_schema_compared_with_itself_needs_nothing() {
    let mut a = table_a(vec![unique("x", &["field"]), normal("y", &["field"])]);
    a.foreign_keys = vec![key(Some("k"), "field", "B", ForeignKeyAction::Cascade)];
    let s = SqlSchema {
        tables: vec![a, table("B", vec![whole("id")])],
        sequences: vec![Sequence { name: "s".to_string() }],
    };
    assert_eq!(diff_schemas(&s, &s), vec![]);
    assert_eq!(diff_schemas(&s, &s.clone()), vec![]);
    assert_eq!(diff_schemas(&SqlSchema::empty(), &SqlSchema::empty()), vec![]);
}

#[test]
fn index_renaming_must_work_both_ways_round() {
    let with_x = schema(vec![table_a(vec![unique("X", &["field", "secondField"])])]);
    let with_y = schema(vec![table_a(vec![unique("Y", &["field", "secondField"])])]);
    assert_eq!(
        diff_schemas(&with_y, &with_x),
        vec![SqlMigrationStep::AlterIndex(AlterIndex {
            table: "A".into(),
            index_name: "X".into(),
            index_new_name: "Y".into(),
        })]
    );
    // the same name over other columns is another index
    let changed = schema(vec![table_a(vec![unique("X", &["field", "id"])])]);
    assert_eq!(
        diff_schemas(&changed, &with_x),
        vec![
            SqlMigrationStep::DropIndex(DropIndex { table: "A".into(), name: "X".into() }),
            SqlMigrationStep::CreateIndex(CreateIndex {
                table: "A".into(),
                index: unique("X", &["field", "id"]),
            }),
        ]
    );
    // the order of the columns counts
    let turned = schema(vec![table_a(vec![unique("X", &["secondField", "field"])])]);
    assert_eq!(diff_schemas(&turned, &with_x).len(), 2);
    // and so does the kind
    let plain = schema(vec![table_a(vec![normal("X", &["field", "secondField"])])]);
    assert_eq!(diff_schemas(&plain, &with_x).len(), 2);
}

#[test]
fn indices_that_cannot_be_told_apart_are_not_renamed() {
    let actual = vec![unique("P", &["a"]), unique("Q", &["a"])];
    let desired = vec![unique("R", &["a"])];
    assert_eq!(count_free_twins(&actual[0], &actual, &desired), (2, 1));
    assert_eq!(count_free_twins(&actual[0], &desired, &actual), (1, 0));
    assert_eq!(find_rename_target(&actual[0], &desired, &actual), None);
    assert!(!comes_by_rename(&desired[0], &desired, &actual));
    let mut before = table_a(actual);
    before.columns.push(column("a", ColumnTypeFamily::Int, ColumnArity::Required));
    let mut after = table_a(desired);
    after.columns.push(column("a", ColumnTypeFamily::Int, ColumnArity::Required));
    assert_eq!(
        diff_schemas(&schema(vec![after]), &schema(vec![before])),
        vec![
            SqlMigrationStep::DropIndex(DropIndex { table: "A".into(), name: "P".into() }),
            SqlMigrationStep::DropIndex(DropIndex { table: "A".into(), name: "Q".into() }),
            SqlMigrationStep::CreateIndex(CreateIndex { table: "A".into(), index: unique("R", &["a"]) }),
        ]
    );
}

#[test]
fn an_index_that_stays_is_no_rename_target() {
    let actual = vec![unique("X", &["a"]), unique("Y", &["a"])];
    let desired = vec![unique("X", &["a"]), unique("Z", &["a"])];
    assert!(holds_index(&desired, &actual[0]));
    assert!(!holds_index(&desired, &actual[1]));
    assert_eq!(find_rename_target(&actual[0], &desired, &actual), None);
    assert_eq!(find_rename_target(&actual[1], &desired, &actual), Some(&desired[1]));
    assert!(comes_by_rename(&desired[1], &desired, &actual));
    assert!(!comes_by_rename(&desired[0], &desired, &actual));
}

#[test]
fn columns_are_dropped_added_and_altered() {
    let mut name = column("name", ColumnTypeFamily::String, ColumnArity::Required);
    name.default = Some("banana".to_string());
    let actual = table("Fruit", vec![whole("id"), name.clone(), whole("gone"), whole("size")]);
    let mut mango = name.clone();
    mango.default = Some("mango".to_string());
    let size = column("size", ColumnTypeFamily::Float, ColumnArity::Nullable);
    let desired = table("Fruit", vec![whole("id"), whole("fresh"), size.clone(), mango.clone()]);
    let changes = diff_columns(&desired, &actual);
    assert_eq!(
        changes,
        vec![
            TableChange::DropColumn(DropColumn { name: "gone".into() }),
            TableChange::AddColumn(AddColumn { column: whole("fresh") }),
            TableChange::AlterColumn(AlterColumn { name: "size".into(), column: size }),
            TableChange::AlterColumn(AlterColumn { name: "name".into(), column: mango }),
        ]
    );
    assert_eq!(
        diff_schemas(&schema(vec![desired.clone()]), &schema(vec![actual.clone()])),
        vec![SqlMigrationStep::AlterTable(AlterTable { table: "Fruit".into(), changes })]
    );
    assert_eq!(diff_columns(&actual, &actual), vec![]);
    let mut counting = actual.clone();
    counting.columns[0].auto_increment = true;
    assert_eq!(diff_columns(&counting, &actual).len(), 1);
}

#[test]
fn tables_come_and_go() {
    let mut b = table("B", vec![whole("id"), whole("a")]);
    b.indices = vec![unique("B.a", &["a"])];
    b.foreign_keys = vec![key(None, "a", "A", ForeignKeyAction::Restrict)];
    let a = table("A", vec![whole("id")]);
    let c = table("C", vec![whole("id")]);
    let with_b = schema(vec![a.clone(), b.clone()]);
    let with_c = schema(vec![a.clone(), c.clone()]);
    assert_eq!(
        diff_schemas(&with_c, &with_b),
        vec![
            SqlMigrationStep::DropForeignKey(DropForeignKey {
                table: "B".into(),
                foreign_key: b.foreign_keys[0].clone(),
            }),
            SqlMigrationStep::DropTable(DropTable { name: "B".into() }),
            SqlMigrationStep::CreateTable(CreateTable { table: c.clone() }),
        ]
    );
    assert_eq!(
        diff_schemas(&with_b, &with_c),
        vec![
            SqlMigrationStep::DropTable(DropTable { name: "C".into() }),
            SqlMigrationStep::CreateTable(CreateTable { table: b.clone() }),
            SqlMigrationStep::CreateIndex(CreateIndex { table: "B".into(), index: unique("B.a", &["a"]) }),
        ]
    );
}

#[test]
fn foreign_keys_are_matched_by_what_they_constrain() {
    let restrict = key(None, "b", "B", ForeignKeyAction::Restrict);
    let named = key(Some("A_b_fkey"), "b", "B", ForeignKeyAction::Restrict);
    let cascade = key(None, "b", "B", ForeignKeyAction::Cascade);
    let elsewhere = key(None, "b", "C", ForeignKeyAction::Restrict);
    assert!(keys_match(&restrict, &named));
    assert!(!keys_match(&named, &restrict));
    assert!(keys_match(&named, &named));
    assert!(!keys_match(&key(Some("mine"), "b", "B", ForeignKeyAction::Restrict), &named));
    assert!(!keys_match(&restrict, &cascade));
    assert!(!keys_match(&restrict, &elsewhere));
    let with = |k: &ForeignKey| {
        let mut a = table("A", vec![whole("id"), whole("b")]);
        a.foreign_keys = vec![k.clone()];
        schema(vec![a])
    };
    // the name that the database gave is no difference
    assert_eq!(diff_schemas(&with(&restrict), &with(&named)), vec![]);
    // a name that the model gives is
    assert_eq!(
        diff_schemas(&with(&named), &with(&restrict)),
        vec![
            SqlMigrationStep::DropForeignKey(DropForeignKey { table: "A".into(), foreign_key: restrict.clone() }),
            SqlMigrationStep::CreateForeignKey(CreateForeignKey { table: "A".into(), foreign_key: named.clone() }),
        ]
    );
    // another action is another key
    assert_eq!(
        diff_schemas(&with(&cascade), &with(&named)),
        vec![
            SqlMigrationStep::DropForeignKey(DropForeignKey { table: "A".into(), foreign_key: named.clone() }),
            SqlMigrationStep::CreateForeignKey(CreateForeignKey { table: "A".into(), foreign_key: cascade.clone() }),
        ]
    );
    let mut other_columns = restrict.clone();
    other_columns.referenced_columns = vec!["key".to_string()];
    assert_eq!(diff_schemas(&with(&other_columns), &with(&restrict)).len(), 2);
}

#[test]
fn steps_stand_in_the_order_of_their_kinds() {
    let mut a_old = table("A", vec![whole("id"), whole("b"), whole("x")]);
    a_old.indices = vec![unique("gone", &["x"]), unique("old", &["b"])];
    a_old.foreign_keys = vec![key(None, "b", "B", ForeignKeyAction::Restrict)];
    let mut a_new = table("A", vec![whole("id"), whole("b"), whole("y")]);
    a_new.indices = vec![unique("new", &["b"]), unique("fresh", &["y"])];
    a_new.foreign_keys = vec![key(None, "b", "C", ForeignKeyAction::Restrict)];
    let actual = schema(vec![a_old, table("B", vec![whole("id")])]);
    let desired = schema(vec![table("C", vec![whole("id")]), a_new]);
    let steps = diff_schemas(&desired, &actual);
    let kinds: Vec<&str> = steps
        .iter()
        .map(|s| match s {
            SqlMigrationStep::DropForeignKey(_) => "drop key",
            SqlMigrationStep::DropIndex(_) => "drop index",
            SqlMigrationStep::DropTable(_) => "drop table",
            SqlMigrationStep::CreateTable(_) => "create table",
            SqlMigrationStep::AlterTable(_) => "alter table",
            SqlMigrationStep::CreateIndex(_) => "create index",
            SqlMigrationStep::AlterIndex(_) => "rename index",
            SqlMigrationStep::CreateForeignKey(_) => "create key",
            _ => "other",
        })
        .collect();
    assert_eq!(
        kinds,
        vec![
            "drop key",
            "drop index",
            "drop table",
            "create table",
            "alter table",
            "create index",
            "rename index",
            "create key"
        ]
    );
    assert_eq!(steps.clone(), steps);
}

#[test]
fn lookups_by_name() {
    let s = schema(vec![table_a(vec![unique("x", &["field"])]), table("B", vec![whole("id")])]);
    assert!(s.has_table("A") && s.has_table("B") && !s.has_table("C"));
    assert_eq!(s.table_position("B"), Some(1));
    assert_eq!(s.table_bang("B").name, "B");
    let a = s.table("A").unwrap();
    assert!(a.has_column("field") && !a.has_column("x"));
    assert_eq!(a.column_position("secondField"), Some(2));
    assert_eq!(a.column_bang("id").name, "id");
    assert!(a.column("nothing").is_none());
    assert_eq!(a.index("x"), Some(&unique("x", &["field"])));
    assert_eq!(a.index_position("y"), None);
    assert!(s.get_sequence("s").is_none());
    assert!(a.columns[0].same(&a.columns[0]) && !a.columns[0].same(&a.columns[1]));
}

#[test]
fn names_within_a_schema_are_told_apart() {
    let good = schema(vec![table_a(vec![unique("x", &["field"]), unique("y", &["field"])]), table("B", vec![whole("id")])]);
    assert!(good.is_well_formed());
    assert!(SqlSchema::empty().is_well_formed());
    let twice = schema(vec![table("B", vec![whole("id")]), table("B", vec![whole("id")])]);
    assert!(!twice.is_well_formed());
    let columns = schema(vec![table("B", vec![whole("id"), whole("x"), whole("id")])]);
    assert!(!columns.is_well_formed());
    assert!(!columns.tables[0].is_well_formed());
    let indices = schema(vec![table_a(vec![unique("x", &["field"]), unique("x", &["id"])])]);
    assert!(!indices.is_well_formed());
    // a schema that is not well formed may differ from itself
    let mut odd = table("B", vec![whole("x"), column("x", ColumnTypeFamily::String, ColumnArity::Required)]);
    odd.primary_key = None;
    let odd = schema(vec![odd]);
    assert!(!odd.is_well_formed());
    assert_eq!(diff_schemas(&odd, &odd).len(), 1);
}
