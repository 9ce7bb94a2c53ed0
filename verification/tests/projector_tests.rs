use migration_planner::datamodel::{
    Datamodel, DefaultValue, Field, FieldArity, FieldType, IndexDefinition, Model,
    OnDeleteStrategy, RelationInfo, ScalarType, Span,
};
use migration_planner::projector::project;
use migration_planner::schema::{
    ColumnArity, ColumnTypeFamily, ForeignKey, ForeignKeyAction, Index, IndexType,
};

fn scalar(name: &str, tpe: ScalarType, arity: FieldArity) -> Field {
    Field {
        name: name.to_string(),
        arity,
        field_type: FieldType::Base(tpe),
        database_name: None,
        default_value: None,
        is_unique: false,
        is_id: false,
        span: Span { start: 0, end: 0 },
    }
}

fn id(name: &str, tpe: ScalarType) -> Field {
    let mut f = scalar(name, tpe, FieldArity::Required);
    f.is_id = true;
    f
}

fn relation(name: &str, to: &str, arity: FieldArity, to_fields: &[&str]) -> Field {
    Field {
        name: name.to_string(),
        arity,
        field_type: FieldType::Relation(RelationInfo {
            to: to.to_string(),
            to_fields: to_fields.iter().map(|s| s.to_string()).collect(),
            name: None,
            on_delete: OnDeleteStrategy::Unspecified,
        }),
        database_name: None,
        default_value: None,
        is_unique: false,
        is_id: false,
        span: Span { start: 0, end: 0 },
    }
}

fn named_relation(name: &str, to: &str, arity: FieldArity, to_fields: &[&str], rel: &str) -> Field {
    let mut f = relation(name, to, arity, to_fields);
    if let FieldType::Relation(r) = &mut f.field_type {
        r.name = Some(rel.to_string());
    }
    f
}

fn model(name: &str, fields: Vec<Field>) -> Model {
    Model { name: name.to_string(), fields, database_name: None, indices: vec![], id_fields: vec![] }
}

fn datamodel(models: Vec<Model>) -> Datamodel {
    Datamodel { models, enums: vec![], type_aliases: vec![] }
}

#[test]
fn adding_a_scalar_field_must_work() {
    let mut id_field = id("id", ScalarType::String);
    id_field.default_value = Some(DefaultValue::Cuid);
    let mut e = scalar("enum", ScalarType::String, FieldArity::Required);
    e.field_type = FieldType::Enum("MyEnum".to_string());
    let dm = datamodel(vec![model(
        "Test",
        vec![
            id_field,
            scalar("int", ScalarType::Int, FieldArity::Required),
            scalar("float", ScalarType::Float, FieldArity::Required),
            scalar("boolean", ScalarType::Boolean, FieldArity::Required),
            scalar("string", ScalarType::String, FieldArity::Required),
            scalar("dateTime", ScalarType::DateTime, FieldArity::Required),
            e,
        ],
    )]);
    let result = project(&dm);
    let table = result.table("Test").unwrap();
    table.columns.iter().for_each(|c| assert_eq!(c.is_required(), true));
    assert_eq!(table.column("int").unwrap().tpe.family, ColumnTypeFamily::Int);
    assert_eq!(table.column("float").unwrap().tpe.family, ColumnTypeFamily::Float);
    assert_eq!(table.column("boolean").unwrap().tpe.family, ColumnTypeFamily::Boolean);
    assert_eq!(table.column("string").unwrap().tpe.family, ColumnTypeFamily::String);
    assert_eq!(table.column("dateTime").unwrap().tpe.family, ColumnTypeFamily::DateTime);
    assert_eq!(table.column("enum").unwrap().tpe.family, ColumnTypeFamily::String);
    assert_eq!(table.primary_key, Some(vec!["id".to_string()]));
}

#[test]
fn adding_an_optional_field_must_work() {
    let dm = datamodel(vec![model(
        "Test",
        vec![id("id", ScalarType::String), scalar("field", ScalarType::String, FieldArity::Optional)],
    )]);
    let result = project(&dm);
    let column = result.table("Test").unwrap().column("field").unwrap();
    assert_eq!(column.is_required(), false);
    assert_eq!(column.tpe.arity, ColumnArity::Nullable);
}

#[test]
fn adding_a_many_to_many_relation_must_result_in_a_relation_table() {
    let dm = datamodel(vec![
        model("A", vec![id("id", ScalarType::Int), relation("bs", "B", FieldArity::List, &[])]),
        model("B", vec![id("id", ScalarType::Int), relation("as", "A", FieldArity::List, &[])]),
    ]);
    let result = project(&dm);
    assert_eq!(result.tables.len(), 3);
    let relation_table = result.table("_AToB").unwrap();
    assert_eq!(relation_table.columns.len(), 2);
    let a_column = relation_table.column("A").unwrap();
    assert_eq!(a_column.tpe.family, ColumnTypeFamily::Int);
    let b_column = relation_table.column("B").unwrap();
    assert_eq!(b_column.tpe.family, ColumnTypeFamily::Int);
    assert_eq!(
        relation_table.foreign_keys,
        vec![
            ForeignKey {
                constraint_name: None,
                columns: vec!["A".to_string()],
                referenced_table: "A".to_string(),
                referenced_columns: vec!["id".to_string()],
                on_delete_action: ForeignKeyAction::Cascade,
            },
            ForeignKey {
                constraint_name: None,
                columns: vec!["B".to_string()],
                referenced_table: "B".to_string(),
                referenced_columns: vec!["id".to_string()],
                on_delete_action: ForeignKeyAction::Cascade,
            },
        ]
    );
    assert_eq!(
        relation_table.indices,
        vec![Index {
            name: "_AToB_AB_unique".to_string(),
            columns: vec!["A".to_string(), "B".to_string()],
            tpe: IndexType::Unique,
        }]
    );
}

#[test]
fn adding_a_many_to_many_relation_with_custom_name_must_work() {
    let dm = datamodel(vec![
        model(
            "A",
            vec![
                id("id", ScalarType::Int),
                named_relation("bs", "B", FieldArity::List, &[], "my_relation"),
            ],
        ),
        model(
            "B",
            vec![
                id("id", ScalarType::Int),
                named_relation("as", "A", FieldArity::List, &[], "my_relation"),
            ],
        ),
    ]);
    let result = project(&dm);
    assert_eq!(result.tables.len(), 3);
    let relation_table = result.table("_my_relation").unwrap();
    assert_eq!(relation_table.columns.len(), 2);
    assert_eq!(relation_table.foreign_keys[0].referenced_table, "A");
    assert_eq!(relation_table.foreign_keys[1].referenced_table, "B");
}

#[test]
fn adding_an_inline_relation_must_result_in_a_foreign_key_in_the_model_table() {
    let dm = datamodel(vec![
        model(
            "A",
            vec![
                id("id", ScalarType::Int),
                relation("b", "B", FieldArity::Required, &["id"]),
                relation("c", "C", FieldArity::Optional, &["id"]),
            ],
        ),
        model("B", vec![id("id", ScalarType::Int)]),
        model("C", vec![id("id", ScalarType::Int)]),
    ]);
    let result = project(&dm);
    let table = result.table("A").unwrap();
    let b_column = table.column("b").unwrap();
    assert_eq!(b_column.tpe.family, ColumnTypeFamily::Int);
    assert_eq!(b_column.tpe.arity, ColumnArity::Required);
    let c_column = table.column("c").unwrap();
    assert_eq!(c_column.tpe.family, ColumnTypeFamily::Int);
    assert_eq!(c_column.tpe.arity, ColumnArity::Nullable);
    assert_eq!(
        table.foreign_keys,
        vec![
            ForeignKey {
                constraint_name: None,
                columns: vec!["b".to_string()],
                referenced_table: "B".to_string(),
                referenced_columns: vec!["id".to_string()],
                on_delete_action: ForeignKeyAction::Restrict,
            },
            ForeignKey {
                constraint_name: None,
                columns: vec!["c".to_string()],
                referenced_table: "C".to_string(),
                referenced_columns: vec!["id".to_string()],
                on_delete_action: ForeignKeyAction::SetNull,
            },
        ]
    );
    assert_eq!(table.indices, vec![]);
}

#[test]
fn adding_an_inline_relation_to_a_model_with_an_exotic_id_type() {
    let dm = datamodel(vec![
        model("A", vec![id("id", ScalarType::Int), relation("b", "B", FieldArity::Required, &["id"])]),
        model("B", vec![id("id", ScalarType::String)]),
    ]);
    let result = project(&dm);
    let column = result.table("A").unwrap().column("b").unwrap();
    assert_eq!(column.tpe.family, ColumnTypeFamily::String);
}

#[test]
fn specifying_a_db_name_for_an_inline_relation_must_work() {
    let mut b = relation("b", "B", FieldArity::Required, &["id"]);
    b.database_name = Some("b_column".to_string());
    let dm = datamodel(vec![
        model("A", vec![id("id", ScalarType::Int), b]),
        model("B", vec![id("id", ScalarType::Int)]),
    ]);
    let result = project(&dm);
    let table = result.table("A").unwrap();
    assert!(table.column("b_column").is_some());
    assert_eq!(table.foreign_keys[0].columns, vec!["b_column".to_string()]);
}

#[test]
fn foreign_keys_of_inline_one_to_one_relations_have_a_unique_constraint() {
    let dm = datamodel(vec![
        model("Cat", vec![id("id", ScalarType::Int), relation("box", "Box", FieldArity::Required, &[])]),
        model("Box", vec![id("id", ScalarType::Int), relation("cat", "Cat", FieldArity::Required, &["id"])]),
    ]);
    let schema = project(&dm);
    let box_table = schema.table("Box").unwrap();
    let expected_indexes =
        vec![Index { name: "Box_cat".into(), columns: vec!["cat".into()], tpe: IndexType::Unique }];
    assert_eq!(box_table.indices, expected_indexes);
    assert!(schema.table("Cat").unwrap().column("box").is_none());
    assert_eq!(schema.tables.len(), 2);
}

#[test]
fn reserved_sql_key_words_must_work() {
    let dm = datamodel(vec![model(
        "Group",
        vec![
            id("id", ScalarType::String),
            named_relation("parent", "Group", FieldArity::Optional, &["id"], "ChildGroups"),
            named_relation("childGroups", "Group", FieldArity::List, &[], "ChildGroups"),
        ],
    )]);
    let result = project(&dm);
    assert_eq!(result.tables.len(), 1);
    let table = result.table("Group").unwrap();
    assert_eq!(
        table.foreign_keys,
        vec![ForeignKey {
            constraint_name: None,
            columns: vec!["parent".to_string()],
            referenced_table: "Group".to_string(),
            referenced_columns: vec!["id".to_string()],
            on_delete_action: ForeignKeyAction::SetNull,
        }]
    );
}

#[test]
fn adding_new_fields_with_multi_column_unique_must_work() {
    let mut m = model(
        "A",
        vec![
            id("id", ScalarType::Int),
            scalar("field", ScalarType::String, FieldArity::Required),
            scalar("secondField", ScalarType::String, FieldArity::Required),
        ],
    );
    m.indices = vec![IndexDefinition {
        name: None,
        fields: vec!["field".to_string(), "secondField".to_string()],
        tpe: IndexType::Unique,
    }];
    let result = project(&datamodel(vec![m]));
    let table = result.table("A").unwrap();
    let index = table.indices.iter().find(|i| i.columns == vec!["field", "secondField"]);
    assert!(index.is_some());
    assert_eq!(index.unwrap().tpe, IndexType::Unique);
    assert_eq!(index.unwrap().name, "A.field_secondField");
}

#[test]
fn multi_column_unique_in_conjunction_with_custom_column_name_must_work() {
    let mut f1 = scalar("field", ScalarType::String, FieldArity::Required);
    f1.database_name = Some("custom_field_name".to_string());
    let mut f2 = scalar("secondField", ScalarType::String, FieldArity::Required);
    f2.database_name = Some("second_custom_field_name".to_string());
    let mut m = model("A", vec![id("id", ScalarType::Int), f1, f2]);
    m.indices = vec![IndexDefinition {
        name: None,
        fields: vec!["field".to_string(), "secondField".to_string()],
        tpe: IndexType::Unique,
    }];
    let result = project(&datamodel(vec![m]));
    let table = result.table("A").unwrap();
    let index = table
        .indices
        .iter()
        .find(|i| i.columns == vec!["custom_field_name", "second_custom_field_name"]);
    assert!(index.is_some());
    assert_eq!(index.unwrap().tpe, IndexType::Unique);
}

#[test]
fn unique_in_conjunction_with_custom_column_name_must_work() {
    let mut f = scalar("field", ScalarType::String, FieldArity::Required);
    f.database_name = Some("custom_field_name".to_string());
    f.is_unique = true;
    let result = project(&datamodel(vec![model("A", vec![id("id", ScalarType::Int), f])]));
    let table = result.table("A").unwrap();
    let index = table.indices.iter().find(|i| i.columns == vec!["custom_field_name"]);
    assert!(index.is_some());
    assert_eq!(index.unwrap().tpe, IndexType::Unique);
    assert_eq!(index.unwrap().name, "A.custom_field_name");
}

#[test]
fn column_defaults_are_projected() {
    let mut name = scalar("name", ScalarType::String, FieldArity::Required);
    name.default_value = Some(DefaultValue::Literal("banana".to_string()));
    let mut created = scalar("createdAt", ScalarType::DateTime, FieldArity::Required);
    created.default_value = Some(DefaultValue::Now);
    let mut counter = id("id", ScalarType::Int);
    counter.default_value = Some(DefaultValue::Autoincrement);
    let result = project(&datamodel(vec![model("Fruit", vec![counter, name, created])]));
    let table = result.table("Fruit").unwrap();
    assert_eq!(table.column("name").unwrap().default.as_deref(), Some("banana"));
    assert!(table.column("createdAt").unwrap().default.as_ref().unwrap().contains("1970"));
    assert_eq!(table.column("id").unwrap().auto_increment, true);
    assert_eq!(table.column("id").unwrap().default, None);
    assert_eq!(table.column("name").unwrap().auto_increment, false);
}
