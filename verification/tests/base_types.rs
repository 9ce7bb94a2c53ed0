use migration_planner::datamodel::{
    Datamodel, Enum, Field, FieldArity, FieldType, Model, OnDeleteStrategy, RelationInfo,
    ScalarType, Span,
};
use migration_planner::dialect::{DialectPolicy, SqlFamily};
use migration_planner::validation::{validate, DatamodelError};

fn field(name: &str, field_type: FieldType, arity: FieldArity, span: Span) -> Field {
    Field {
        name: name.to_string(),
        arity,
        field_type,
        database_name: None,
        default_value: None,
        is_unique: false,
        is_id: false,
        span,
    }
}

fn base(name: &str, tpe: ScalarType, arity: FieldArity, start: usize, end: usize) -> Field {
    field(name, FieldType::Base(tpe), arity, Span::new(start, end))
}

fn model(name: &str, fields: Vec<Field>) -> Model {
    Model { name: name.to_string(), fields, database_name: None, indices: vec![], id_fields: vec![] }
}

fn abc() -> Enum {
    Enum { name: "Enum".to_string(), values: vec!["A".to_string(), "B".to_string(), "C".to_string()] }
}

#[test]
fn parse_scalar_types() {
    let mut id = base("id", ScalarType::Int, FieldArity::Required, 0, 0);
    id.is_id = true;
    let schema = Datamodel {
        models: vec![model(
            "User",
            vec![
                id,
                base("firstName", ScalarType::String, FieldArity::Required, 0, 0),
                base("age", ScalarType::Int, FieldArity::Required, 0, 0),
                base("isPro", ScalarType::Boolean, FieldArity::Required, 0, 0),
                base("balance", ScalarType::Decimal, FieldArity::Required, 0, 0),
                base("averageGrade", ScalarType::Float, FieldArity::Required, 0, 0),
            ],
        )],
        enums: vec![],
        type_aliases: vec![],
    };
    let user_model = schema.model("User").expect("model User");
    assert_eq!(
        user_model.field("firstName").expect("field").field_type,
        FieldType::Base(ScalarType::String)
    );
    assert_eq!(user_model.field("age").expect("field").field_type, FieldType::Base(ScalarType::Int));
    assert_eq!(
        user_model.field("isPro").expect("field").field_type,
        FieldType::Base(ScalarType::Boolean)
    );
    assert_eq!(
        user_model.field("balance").expect("field").field_type,
        FieldType::Base(ScalarType::Decimal)
    );
    assert_eq!(
        user_model.field("averageGrade").expect("field").field_type,
        FieldType::Base(ScalarType::Float)
    );
    assert!(user_model.field("absent").is_none());
    assert!(schema.model("Nobody").is_none());
}

fn post_fields(comments: Span, enums: Span) -> Vec<Field> {
    let mut id = base("id", ScalarType::Int, FieldArity::Required, 0, 0);
    id.is_id = true;
    vec![
        id,
        base("text", ScalarType::String, FieldArity::Required, 0, 0),
        base("photo", ScalarType::String, FieldArity::Optional, 0, 0),
        field("comments", FieldType::Base(ScalarType::String), FieldArity::List, comments),
        field("enums", FieldType::Enum("Enum".to_string()), FieldArity::List, enums),
    ]
}

#[test]
fn parse_field_arity() {
    let schema = Datamodel {
        models: vec![model("Post", post_fields(Span::new(0, 0), Span::new(0, 0)))],
        enums: vec![abc()],
        type_aliases: vec![],
    };
    let post_model = schema.model("Post").expect("model Post");
    let text = post_model.field("text").expect("field");
    assert_eq!(text.field_type, FieldType::Base(ScalarType::String));
    assert_eq!(text.arity, FieldArity::Required);
    let photo = post_model.field("photo").expect("field");
    assert_eq!(photo.field_type, FieldType::Base(ScalarType::String));
    assert_eq!(photo.arity, FieldArity::Optional);
    let comments = post_model.field("comments").expect("field");
    assert_eq!(comments.field_type, FieldType::Base(ScalarType::String));
    assert_eq!(comments.arity, FieldArity::List);
    let enums = post_model.field("enums").expect("field");
    assert_eq!(enums.field_type, FieldType::Enum("Enum".to_string()));
    assert_eq!(enums.arity, FieldArity::List);
    // a dialect that stores lists has nothing to object to
    assert_eq!(validate(&schema, true), vec![]);
}

#[test]
fn scalar_list_types_are_not_supported_by_default() {
    let mut fields = post_fields(Span::new(106, 125), Span::new(134, 151));
    // relations still work
    fields.push(field(
        "categories",
        FieldType::Relation(RelationInfo {
            to: "Category".to_string(),
            to_fields: vec![],
            name: None,
            on_delete: OnDeleteStrategy::Unspecified,
        }),
        FieldArity::List,
        Span::new(160, 182),
    ));
    let mut category_id = base("id", ScalarType::Int, FieldArity::Required, 0, 0);
    category_id.is_id = true;
    let schema = Datamodel {
        models: vec![
            model("Post", fields),
            model(
                "Category",
                vec![category_id, base("name", ScalarType::String, FieldArity::Required, 0, 0)],
            ),
        ],
        enums: vec![abc()],
        type_aliases: vec![],
    };
    let errors = validate(&schema, false);
    assert_eq!(errors.len(), 2);
    assert_eq!(
        errors[0],
        DatamodelError::new_scalar_list_fields_are_not_supported("Post", "comments", Span::new(106, 125))
    );
    assert_eq!(
        errors[1],
        DatamodelError::new_scalar_list_fields_are_not_supported("Post", "enums", Span::new(134, 151))
    );
}

#[test]
fn scalar_list_types_are_not_supported_by_mysql() {
    let schema = Datamodel {
        models: vec![model("Post", post_fields(Span::new(178, 195), Span::new(204, 219)))],
        enums: vec![abc()],
        type_aliases: vec![],
    };
    let policy = DialectPolicy::of(SqlFamily::Mysql);
    let errors = validate(&schema, policy.scalar_lists);
    assert_eq!(errors.len(), 2);
    assert_eq!(
        errors[0],
        DatamodelError::new_scalar_list_fields_are_not_supported("Post", "comments", Span::new(178, 195))
    );
    assert_eq!(
        errors[1],
        DatamodelError::new_scalar_list_fields_are_not_supported("Post", "enums", Span::new(204, 219))
    );
}

#[test]
fn relation_to_a_missing_model_is_an_error() {
    let schema = Datamodel {
        models: vec![model(
            "Post",
            vec![field(
                "author",
                FieldType::Relation(RelationInfo {
                    to: "User".to_string(),
                    to_fields: vec!["id".to_string()],
                    name: None,
                    on_delete: OnDeleteStrategy::Unspecified,
                }),
                FieldArity::Required,
                Span::new(7, 9),
            )],
        )],
        enums: vec![],
        type_aliases: vec![],
    };
    assert_eq!(
        validate(&schema, true),
        vec![DatamodelError::RelatedModelNotFound {
            model: "Post".to_string(),
            field: "author".to_string(),
            related: "User".to_string(),
            span: Span::new(7, 9),
        }]
    );
}
