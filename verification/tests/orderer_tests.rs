use migration_planner::orderer::{order_steps, step_must_precede};
use migration_planner::schema::{
    Column, ColumnArity, ColumnType, ColumnTypeFamily, ForeignKey, ForeignKeyAction, Index,
    IndexType, Table,
};
use migration_planner::steps::{
    CopyRows, CreateForeignKey, CreateIndex, CreateTable, DropForeignKey, DropIndex, DropTable,
    RenameTable, SqlMigrationStep,
};

fn key(column: &str, to: &str) -> ForeignKey {
    ForeignKey {
        constraint_name: None,
        columns: vec![column.to_string()],
        referenced_table: to.to_string(),
        referenced_columns: vec!["id".to_string()],
        on_delete_action: ForeignKeyAction::Restrict,
    }
}

fn table(name: &str, keys: Vec<ForeignKey>) -> Table {
    Table {
        name: name.to_string(),
        columns: vec![Column {
            name: "id".to_string(),
            tpe: ColumnType { family: ColumnTypeFamily::Int, arity: ColumnArity::Required },
            default: None,
            auto_increment: false,
        }],
        indices: vec![],
        primary_key: Some(vec!["id".to_string()]),
        foreign_keys: keys,
    }
}

fn create(name: &str, keys: Vec<ForeignKey>) -> SqlMigrationStep {
    SqlMigrationStep::CreateTable(CreateTable { table: table(name, keys) })
}

fn drop_table(name: &str) -> SqlMigrationStep {
    SqlMigrationStep::DropTable(DropTable { name: name.to_string() })
}

fn drop_key(on: &str, column: &str, to: &str) -> SqlMigrationStep {
    SqlMigrationStep::DropForeignKey(DropForeignKey { table: on.to_string(), foreign_key: key(column, to) })
}

fn create_key(on: &str, column: &str, to: &str) -> SqlMigrationStep {
    SqlMigrationStep::CreateForeignKey(CreateForeignKey {
        table: on.to_string(),
        foreign_key: key(column, to),
    })
}

fn create_index(on: &str, name: &str) -> SqlMigrationStep {
    SqlMigrationStep::CreateIndex(CreateIndex {
        table: on.to_string(),
        index: Index { name: name.to_string(), columns: vec!["id".to_string()], tpe: IndexType::Normal },
    })
}

fn position(plan: &[SqlMigrationStep], step: &SqlMigrationStep) -> usize {
    plan.iter().position(|s| s == step).expect("the step is in the plan")
}

#[test]
fn nothing_to_order() {
    assert_eq!(order_steps(vec![]), Ok(vec![]));
}

#[test]
fn foreign_keys_are_dropped_before_their_table() {
    let steps = vec![drop_table("T"), drop_key("T", "r", "R"), drop_key("S", "t", "T")];
    let plan = order_steps(steps).unwrap();
    assert_eq!(plan, vec![drop_key("T", "r", "R"), drop_key("S", "t", "T"), drop_table("T")]);
}

#[test]
fn a_table_is_created_before_a_foreign_key_to_it() {
    let steps = vec![create_key("T", "r", "R"), create("R", vec![]), create_index("R", "R.id")];
    let plan = order_steps(steps).unwrap();
    assert_eq!(plan, vec![create("R", vec![]), create_key("T", "r", "R"), create_index("R", "R.id")]);
}

#[test]
fn referenced_tables_are_created_first() {
    let steps = vec![
        create("_AToB", vec![key("A", "A"), key("B", "B")]),
        create("C", vec![]),
        create("B", vec![key("a", "A")]),
        create("A", vec![]),
    ];
    let plan = order_steps(steps.clone()).unwrap();
    assert_eq!(
        plan,
        vec![
            create("C", vec![]),
            create("A", vec![]),
            create("B", vec![key("a", "A")]),
            create("_AToB", vec![key("A", "A"), key("B", "B")]),
        ]
    );
    for a in &steps {
        for b in &steps {
            if step_must_precede(a, b) {
                assert!(position(&plan, a) < position(&plan, b));
            }
        }
    }
}

#[test]
fn a_table_may_refer_to_itself() {
    let steps = vec![create("Group", vec![key("parent", "Group")])];
    assert_eq!(order_steps(steps.clone()), Ok(steps));
}

#[test]
fn steps_in_order_stay_as_they_are() {
    let steps = vec![
        drop_key("A", "b", "B"),
        SqlMigrationStep::DropIndex(DropIndex { table: "A".to_string(), name: "x".to_string() }),
        drop_table("B"),
        create("C", vec![]),
        create_index("C", "C.id"),
        create_index("A", "A.id"),
        create_key("A", "c", "C"),
    ];
    assert_eq!(order_steps(steps.clone()), Ok(steps));
}

#[test]
fn tables_that_refer_to_each_other_cannot_be_ordered() {
    let steps = vec![
        create("C", vec![]),
        create("A", vec![key("b", "B")]),
        create("B", vec![key("a", "A")]),
        create_index("A", "A.id"),
    ];
    let error = order_steps(steps).unwrap_err();
    assert_eq!(
        error.steps,
        vec![
            create("A", vec![key("b", "B")]),
            create("B", vec![key("a", "A")]),
            create_index("A", "A.id"),
        ]
    );
}

#[test]
fn the_steps_of_a_recreation_keep_their_order() {
    let steps = vec![
        SqlMigrationStep::RenameTable(RenameTable { name: "new_T".to_string(), new_name: "T".to_string() }),
        create_index("T", "T.id"),
        drop_table("T"),
        SqlMigrationStep::CopyRows(CopyRows {
            from: "T".to_string(),
            to: "new_T".to_string(),
            columns: vec!["id".to_string()],
        }),
        create("new_T", vec![]),
    ];
    let plan = order_steps(steps.clone()).unwrap();
    assert_eq!(plan, vec![steps[4].clone(), steps[3].clone(), steps[2].clone(), steps[0].clone(), steps[1].clone()]);
}

#[test]
fn what_must_precede_what() {
    assert!(step_must_precede(&drop_key("T", "r", "R"), &drop_table("T")));
    assert!(step_must_precede(&drop_key("T", "r", "R"), &drop_table("R")));
    assert!(!step_must_precede(&drop_key("T", "r", "R"), &drop_table("S")));
    assert!(!step_must_precede(&drop_table("T"), &drop_key("T", "r", "R")));
    assert!(step_must_precede(&create("R", vec![]), &create_key("T", "r", "R")));
    assert!(step_must_precede(&create("T", vec![]), &create_key("T", "r", "R")));
    assert!(!step_must_precede(&create("S", vec![]), &create_key("T", "r", "R")));
    assert!(step_must_precede(&create("R", vec![]), &create("T", vec![key("r", "R")])));
    assert!(!step_must_precede(&create("R", vec![key("r", "R")]), &create("R", vec![key("r", "R")])));
    assert!(!step_must_precede(&create_index("T", "i"), &create("T", vec![])));
}
