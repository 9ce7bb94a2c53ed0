use migration_planner::api::apply_migration;
use migration_planner::datamodel::{
    Datamodel, DefaultValue, Field, FieldArity, FieldType, IndexDefinition, Model,
    OnDeleteStrategy, RelationInfo, ScalarType, Span,
};
use migration_planner::datamodel_apply::{Intent, StepError};
use migration_planner::datamodel_differ::diff_datamodels;
use migration_planner::datamodel_steps::{DeleteModel, MigrationStep};
use migration_planner::dialect::{DialectPolicy, SqlFamily};
use migration_planner::planner::{
    destructive_changes, plan_migration, plan_schema_migration, release, MigrationPlan,
    MigrationWarning, PlanError,
};
use migration_planner::projector::project;
use migration_planner::schema::{ColumnArity, ColumnTypeFamily, IndexType, SqlSchema};
use migration_planner::steps::{
    AlterIndex, AlterTable, CreateIndex, CreateTable, DropColumn, DropIndex, DropTable,
    SqlMigrationStep, TableChange,
};
use migration_planner::validation::DatamodelError;

const FAMILIES: [SqlFamily; 3] = [SqlFamily::Postgres, SqlFamily::Mysql, SqlFamily::Sqlite];

fn scalar(name: &str, tpe: ScalarType) -> Field {
    Field {
        name: name.to_string(),
        arity: FieldArity::Required,
        field_type: FieldType::Base(tpe),
        database_name: None,
        default_value: None,
        is_unique: false,
        is_id: false,
        span: Span { start: 0, end: 0 },
    }
}

fn id(tpe: ScalarType) -> Field {
    let mut f = scalar("id", tpe);
    f.is_id = true;
    f
}

fn relation(name: &str, to: &str, arity: FieldArity, to_fields: &[&str]) -> Field {
    let mut f = scalar(name, ScalarType::Int);
    f.arity = arity;
    f.field_type = FieldType::Relation(RelationInfo {
        to: to.to_string(),
        to_fields: to_fields.iter().map(|s| s.to_string()).collect(),
        name: None,
        on_delete: OnDeleteStrategy::Unspecified,
    });
    f
}

fn model(name: &str, fields: Vec<Field>) -> Model {
    Model { name: name.to_string(), fields, database_name: None, indices: vec![], id_fields: vec![] }
}

fn dm(models: Vec<Model>) -> Datamodel {
    Datamodel { models, enums: vec![], type_aliases: vec![] }
}

fn unique(fields: &[&str], name: Option<&str>) -> IndexDefinition {
    IndexDefinition {
        name: name.map(|n| n.to_string()),
        fields: fields.iter().map(|f| f.to_string()).collect(),
        tpe: IndexType::Unique,
    }
}

fn indexed(index: Option<IndexDefinition>) -> Datamodel {
    let mut a = model(
        "A",
        vec![id(ScalarType::Int), scalar("field", ScalarType::String), scalar("secondField", ScalarType::Int)],
    );
    a.indices = index.into_iter().collect();
    dm(vec![a])
}

/// The schema of a database that the data model was applied to.
fn applied(policy: &DialectPolicy, model: &Datamodel) -> SqlSchema {
    policy.specialize_schema(&project(model))
}

fn fruit() -> Datamodel {
    let mut key = id(ScalarType::String);
    key.default_value = Some(DefaultValue::Cuid);
    let mut name = scalar("name", ScalarType::String);
    name.default_value = Some(DefaultValue::Literal("ba\\0nana".to_string()));
    let mut contains = scalar("contains", ScalarType::String);
    contains.default_value = Some(DefaultValue::Literal("'potassium'".to_string()));
    let mut created = scalar("createdAt", ScalarType::DateTime);
    created.default_value = Some(DefaultValue::Now);
    let mut counter = scalar("counter", ScalarType::Int);
    counter.default_value = Some(DefaultValue::Autoincrement);
    dm(vec![model("Fruit", vec![key, name, contains, created, counter])])
}

#[test]
fn planning_against_a_matching_database_gives_nothing() {
    let models = vec![
        fruit(),
        indexed(Some(unique(&["field", "secondField"], None))),
        dm(vec![
            model("A", vec![id(ScalarType::Int), relation("bs", "B", FieldArity::List, &[])]),
            model("B", vec![id(ScalarType::Int), relation("as", "A", FieldArity::List, &[])]),
            model("C", vec![id(ScalarType::Int), relation("a", "A", FieldArity::Optional, &["id"])]),
        ]),
        Datamodel::empty(),
    ];
    for family in FAMILIES {
        let policy = DialectPolicy::of(family);
        for model in &models {
            let actual = applied(&policy, model);
            let plan = plan_migration(&policy, model, &actual).unwrap();
            assert_eq!(plan, MigrationPlan { steps: vec![], warnings: vec![] });
        }
    }
}

#[test]
fn escaped_string_defaults_are_not_arbitrarily_migrated() {
    for family in FAMILIES {
        let policy = DialectPolicy::of(family);
        let mut actual = applied(&policy, &fruit());
        // the database hands the default back without its quotes
        for column in actual.tables[0].columns.iter_mut() {
            if column.name == "contains" {
                assert_eq!(column.default.as_deref(), Some("'potassium'"));
                column.default = Some("potassium".to_string());
            }
        }
        let output = plan_migration(&policy, &fruit(), &actual).unwrap();
        assert!(output.steps.is_empty(), "No migration");
        assert!(output.warnings.is_empty(), "No warnings");
    }
}

#[test]
fn created_at_does_not_get_arbitrarily_migrated() {
    for family in FAMILIES {
        let policy = DialectPolicy::of(family);
        let schema = applied(&policy, &fruit());
        assert!(schema.table("Fruit").unwrap().column("createdAt").unwrap().default.as_ref().unwrap().contains("1970"));
        let output = plan_migration(&policy, &fruit(), &schema).unwrap();
        assert!(output.warnings.is_empty(), "No warnings");
        assert!(output.steps.is_empty(), "Migration should be empty");
    }
}

#[test]
fn foreign_key_names_of_the_database_are_no_difference() {
    let model = dm(vec![
        model("A", vec![id(ScalarType::Int), relation("b", "B", FieldArity::Required, &["id"])]),
        model("B", vec![id(ScalarType::Int)]),
    ]);
    for (family, name) in [(SqlFamily::Postgres, "A_b_fkey"), (SqlFamily::Mysql, "A_ibfk_7")] {
        let policy = DialectPolicy::of(family);
        let mut actual = applied(&policy, &model);
        actual.tables[0].foreign_keys[0].constraint_name = Some(name.to_string());
        let plan = plan_migration(&policy, &model, &actual).unwrap();
        assert_eq!(plan, MigrationPlan { steps: vec![], warnings: vec![] });
    }
}

#[test]
fn index_renaming_must_work_when_renaming_to_default() {
    let dm1 = indexed(Some(unique(&["field", "secondField"], Some("customName"))));
    let dm2 = indexed(Some(unique(&["field", "secondField"], None)));
    for family in [SqlFamily::Postgres, SqlFamily::Mysql] {
        let policy = DialectPolicy::of(family);
        let result = plan_migration(&policy, &dm2, &applied(&policy, &dm1)).unwrap();
        let expected_steps = vec![SqlMigrationStep::AlterIndex(AlterIndex {
            table: "A".into(),
            index_new_name: "A.field_secondField".into(),
            index_name: "customName".into(),
        })];
        assert_eq!(result.steps, expected_steps);
        assert_eq!(result.warnings, vec![]);
    }
}

#[test]
fn index_renaming_must_work_when_renaming_to_custom() {
    let dm1 = indexed(Some(unique(&["field", "secondField"], None)));
    let dm2 = indexed(Some(unique(&["field", "secondField"], Some("somethingCustom"))));
    for family in [SqlFamily::Postgres, SqlFamily::Mysql] {
        let policy = DialectPolicy::of(family);
        let result = plan_migration(&policy, &dm2, &applied(&policy, &dm1)).unwrap();
        let expected_steps = vec![SqlMigrationStep::AlterIndex(AlterIndex {
            table: "A".into(),
            index_name: "A.field_secondField".into(),
            index_new_name: "somethingCustom".into(),
        })];
        assert_eq!(result.steps, expected_steps);
    }
    // where nothing is renamed in place the table is made anew
    let policy = DialectPolicy::of(SqlFamily::Sqlite);
    let result = plan_migration(&policy, &dm2, &applied(&policy, &dm1)).unwrap();
    assert!(!result.steps.iter().any(|s| matches!(s, SqlMigrationStep::AlterIndex(_))));
    assert!(result.steps.contains(&SqlMigrationStep::DropIndex(DropIndex {
        table: "A".into(),
        name: "A.field_secondField".into(),
    })));
    assert!(result.steps.iter().any(|s| match s {
        SqlMigrationStep::CreateIndex(CreateIndex { table, index }) =>
            table == "A" && index.name == "somethingCustom",
        _ => false,
    }));
    assert_eq!(result.warnings, vec![]);
}

#[test]
fn adding_unique_to_an_existing_field_must_work() {
    let dm1 = indexed(None);
    let mut dm2 = indexed(None);
    dm2.models[0].fields[1].is_unique = true;
    let policy = DialectPolicy::of(SqlFamily::Postgres);
    let result = plan_migration(&policy, &dm2, &applied(&policy, &dm1)).unwrap();
    assert_eq!(result.steps.len(), 1);
    match &result.steps[0] {
        SqlMigrationStep::CreateIndex(CreateIndex { table, index }) => {
            assert_eq!(table, "A");
            assert_eq!(index.columns, vec!["field".to_string()]);
            assert_eq!(index.tpe, IndexType::Unique);
        }
        other => panic!("an index is created, not {:?}", other),
    }
    // and back
    let result = plan_migration(&policy, &dm1, &applied(&policy, &dm2)).unwrap();
    assert_eq!(
        result.steps,
        vec![SqlMigrationStep::DropIndex(DropIndex { table: "A".into(), name: "A.field".into() })]
    );
    assert_eq!(result.warnings, vec![]);
}

#[test]
fn removing_a_scalar_field_must_work() {
    let dm1 = dm(vec![model("Test", vec![id(ScalarType::String), scalar("field", ScalarType::String)])]);
    let dm2 = dm(vec![model("Test", vec![id(ScalarType::String)])]);
    for family in [SqlFamily::Postgres, SqlFamily::Mysql] {
        let policy = DialectPolicy::of(family);
        let actual = applied(&policy, &dm1);
        let plan = plan_migration(&policy, &dm2, &actual).unwrap();
        assert_eq!(
            plan.steps,
            vec![SqlMigrationStep::AlterTable(AlterTable {
                table: "Test".into(),
                changes: vec![TableChange::DropColumn(DropColumn { name: "field".into() })],
            })]
        );
        assert_eq!(
            plan.warnings,
            vec![MigrationWarning::ColumnDropped { table: "Test".into(), column: "field".into() }]
        );
        // without force nothing is released
        let steps = diff_datamodels(&dm1, &dm2);
        let refused = apply_migration(&policy, &dm1, &steps, false, &actual);
        assert_eq!(
            refused,
            Err(PlanError::DestructiveChanges {
                warnings: vec![MigrationWarning::ColumnDropped {
                    table: "Test".into(),
                    column: "field".into()
                }]
            })
        );
        // with force all of it is
        assert_eq!(apply_migration(&policy, &dm1, &steps, true, &actual), Ok(plan.steps));
    }
    // where the table is made anew the lost column is warned of all the same
    let policy = DialectPolicy::of(SqlFamily::Sqlite);
    let actual = applied(&policy, &dm1);
    let plan = plan_migration(&policy, &dm2, &actual).unwrap();
    assert_eq!(
        plan.warnings,
        vec![MigrationWarning::ColumnDropped { table: "Test".into(), column: "field".into() }]
    );
    assert!(release(plan, false).is_err());
}

#[test]
fn dropping_a_model_with_a_multi_field_unique_index_must_work() {
    let dm1 = indexed(Some(unique(&["field", "secondField"], Some("customName"))));
    let dm2 = Datamodel::empty();
    for family in FAMILIES {
        let policy = DialectPolicy::of(family);
        let plan = plan_migration(&policy, &dm2, &applied(&policy, &dm1)).unwrap();
        assert_eq!(plan.steps, vec![SqlMigrationStep::DropTable(DropTable { name: "A".into() })]);
        assert_eq!(plan.warnings, vec![MigrationWarning::TableDropped { table: "A".into() }]);
        assert_eq!(
            release(plan, false),
            Err(PlanError::DestructiveChanges {
                warnings: vec![MigrationWarning::TableDropped { table: "A".into() }]
            })
        );
    }
}

#[test]
fn a_plan_without_warnings_is_released_either_way() {
    let step = SqlMigrationStep::DropIndex(DropIndex { table: "A".into(), name: "x".into() });
    for force in [false, true] {
        let plan = MigrationPlan { steps: vec![step.clone()], warnings: vec![] };
        assert_eq!(release(plan, force), Ok(vec![step.clone()]));
    }
    assert_eq!(destructive_changes(&vec![step]), vec![]);
}

#[test]
fn new_models_are_created_in_an_order_that_can_be_run() {
    let model = dm(vec![
        model("A", vec![id(ScalarType::Int), relation("b", "B", FieldArity::Required, &["id"]), relation("cs", "C", FieldArity::List, &[])]),
        model("B", vec![id(ScalarType::Int)]),
        model("C", vec![id(ScalarType::Int), relation("as", "A", FieldArity::List, &[])]),
    ]);
    for (family, key) in [
        (SqlFamily::Postgres, Some("A_b_fkey")),
        (SqlFamily::Mysql, Some("A_ibfk_1")),
        (SqlFamily::Sqlite, None),
    ] {
        let policy = DialectPolicy::of(family);
        let plan = plan_migration(&policy, &model, &SqlSchema::empty()).unwrap();
        let names: Vec<String> = plan
            .steps
            .iter()
            .map(|s| match s {
                SqlMigrationStep::CreateTable(CreateTable { table }) => format!("table {}", table.name),
                SqlMigrationStep::CreateIndex(CreateIndex { index, .. }) => format!("index {}", index.name),
                other => panic!("nothing but tables and indices is created, not {:?}", other),
            })
            .collect();
        assert_eq!(names, vec!["table B", "table A", "table C", "table _AToC", "index _AToC_AB_unique"]);
        match &plan.steps[1] {
            SqlMigrationStep::CreateTable(CreateTable { table }) => {
                assert_eq!(table.foreign_keys[0].constraint_name.as_deref(), key)
            }
            _ => unreachable!(),
        }
        assert_eq!(plan.warnings, vec![]);
    }
}

#[test]
fn models_that_require_each_other_cannot_be_created_at_once() {
    let both = dm(vec![
        model("A", vec![id(ScalarType::Int), relation("b", "B", FieldArity::Required, &["id"])]),
        model("B", vec![id(ScalarType::Int), relation("a", "A", FieldArity::Required, &["id"])]),
    ]);
    let policy = DialectPolicy::of(SqlFamily::Postgres);
    match plan_migration(&policy, &both, &SqlSchema::empty()) {
        Err(PlanError::UnsupportedMigration { steps }) => {
            assert!(steps.len() >= 2);
            assert!(matches!(steps[0], SqlMigrationStep::CreateTable(_)));
        }
        other => panic!("the migration is not supported, but: {:?}", other),
    }
    // split across two migrations it can be done
    let first = dm(vec![
        model("A", vec![id(ScalarType::Int)]),
        model("B", vec![id(ScalarType::Int), relation("a", "A", FieldArity::Required, &["id"])]),
    ]);
    let plan = plan_migration(&policy, &first, &SqlSchema::empty()).unwrap();
    assert_eq!(plan.steps.len(), 2);
    let second = plan_migration(&policy, &both, &applied(&policy, &first)).unwrap();
    // the column, the unique indices of the one-to-one relation, the foreign key
    assert_eq!(second.steps.len(), 4);
    assert!(matches!(second.steps[0], SqlMigrationStep::AlterTable(_)));
    assert!(matches!(second.steps[1], SqlMigrationStep::CreateIndex(_)));
    assert!(matches!(second.steps[2], SqlMigrationStep::CreateIndex(_)));
    assert!(matches!(second.steps[3], SqlMigrationStep::CreateForeignKey(_)));
}

#[test]
fn a_data_model_that_is_not_valid_gets_no_plan() {
    let mut comments = scalar("comments", ScalarType::String);
    comments.arity = FieldArity::List;
    comments.span = Span { start: 106, end: 125 };
    let model = dm(vec![model("Post", vec![id(ScalarType::Int), comments])]);
    for family in [SqlFamily::Mysql, SqlFamily::Sqlite] {
        assert_eq!(
            plan_migration(&DialectPolicy::of(family), &model, &SqlSchema::empty()),
            Err(PlanError::InvalidDatamodel {
                errors: vec![DatamodelError::new_scalar_list_fields_are_not_supported(
                    "Post",
                    "comments",
                    Span::new(106, 125)
                )]
            })
        );
    }
}

#[test]
fn adding_a_scalar_list_for_a_modelwith_id_type_int_must_work() {
    let mut strings = scalar("strings", ScalarType::String);
    strings.arity = FieldArity::List;
    let mut enums = scalar("enums", ScalarType::String);
    enums.field_type = FieldType::Enum("Status".to_string());
    enums.arity = FieldArity::List;
    let model = dm(vec![model("A", vec![id(ScalarType::Int), strings, enums])]);
    let policy = DialectPolicy::of(SqlFamily::Postgres);
    let plan = plan_migration(&policy, &model, &SqlSchema::empty()).unwrap();
    match &plan.steps[0] {
        SqlMigrationStep::CreateTable(CreateTable { table }) => {
            let string_column = table.column("strings").unwrap();
            assert_eq!(string_column.tpe.family, ColumnTypeFamily::String);
            assert_eq!(string_column.tpe.arity, ColumnArity::List);
            let enum_column = table.column("enums").unwrap();
            assert_eq!(enum_column.tpe.family, ColumnTypeFamily::String);
            assert_eq!(enum_column.tpe.arity, ColumnArity::List);
        }
        other => panic!("a table is created, not {:?}", other),
    }
}

#[test]
fn a_migration_whose_steps_do_not_fit_fails() {
    let policy = DialectPolicy::of(SqlFamily::Postgres);
    let steps = vec![MigrationStep::DeleteModel(DeleteModel { model: "abcd".to_owned() })];
    let error =
        apply_migration(&policy, &Datamodel::empty(), &steps, true, &SqlSchema::empty()).unwrap_err();
    assert_eq!(
        error,
        PlanError::InvalidStep {
            error: StepError::ModelDoesNotExist { model: "abcd".to_string(), intent: Intent::Delete }
        }
    );
}

#[test]
fn schemas_are_planned_for_as_data_models_are() {
    let model = indexed(Some(unique(&["field"], None)));
    for family in FAMILIES {
        let policy = DialectPolicy::of(family);
        let desired = project(&model);
        assert_eq!(
            plan_schema_migration(&policy, &desired, &SqlSchema::empty()),
            plan_migration(&policy, &model, &SqlSchema::empty())
        );
    }
}
