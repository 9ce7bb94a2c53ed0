use migration_planner::api::{calculate_database_steps, infer_datamodel_steps};
use migration_planner::datamodel::{
    Datamodel, DefaultValue, Enum, Field, FieldArity, FieldType, IndexDefinition, Model,
    OnDeleteStrategy, RelationInfo, ScalarType, Span, TypeAlias,
};
use migration_planner::datamodel_apply::{apply_step, apply_steps, Intent, StepError};
use migration_planner::datamodel_differ::diff_datamodels;
use migration_planner::datamodel_steps::{
    CreateEnum, CreateField, CreateModel, CreateTypeAlias, DeleteEnum, DeleteField, DeleteModel,
    DeleteTypeAlias, MigrationStep, UpdateEnum, UpdateField, UpdateModel,
};
use migration_planner::dialect::{DialectPolicy, SqlFamily};
use migration_planner::planner::PlanError;
use migration_planner::schema::IndexType;
use migration_planner::steps::{AddColumn, AlterTable, SqlMigrationStep, TableChange};

fn scalar(name: &str, tpe: ScalarType) -> Field {
    Field {
        name: name.to_string(),
        arity: FieldArity::Required,
        field_type: FieldType::Base(tpe),
        database_name: None,
        default_value: None,
        is_unique: false,
        is_id: false,
        span: Span { start: 0, end: 0 },
    }
}

fn id() -> Field {
    let mut f = scalar("id", ScalarType::String);
    f.is_id = true;
    f.default_value = Some(DefaultValue::Cuid);
    f
}

fn model(name: &str, fields: Vec<Field>) -> Model {
    Model { name: name.to_string(), fields, database_name: None, indices: vec![], id_fields: vec![] }
}

fn dm(models: Vec<Model>) -> Datamodel {
    Datamodel { models, enums: vec![], type_aliases: vec![] }
}

fn cuid() -> TypeAlias {
    TypeAlias {
        name: "CUID".to_string(),
        scalar: ScalarType::String,
        default_value: Some(DefaultValue::Cuid),
        is_unique: false,
        is_id: true,
    }
}

fn create_model(name: &str) -> MigrationStep {
    MigrationStep::CreateModel(CreateModel {
        model: name.to_string(),
        database_name: None,
        indices: vec![],
        id_fields: vec![],
    })
}

fn create_field(model: &str, field: Field) -> MigrationStep {
    MigrationStep::CreateField(CreateField { model: model.to_string(), field })
}

#[test]
fn the_same_data_model_needs_no_steps() {
    let mut user = model("User", vec![id(), scalar("age", ScalarType::Float)]);
    user.indices =
        vec![IndexDefinition { name: None, fields: vec!["age".to_string()], tpe: IndexType::Normal }];
    let a = Datamodel {
        models: vec![user, model("Post", vec![id()])],
        enums: vec![Enum { name: "E".to_string(), values: vec!["A".to_string()] }],
        type_aliases: vec![cuid()],
    };
    assert_eq!(diff_datamodels(&a, &a), vec![]);
    assert_eq!(diff_datamodels(&Datamodel::empty(), &Datamodel::empty()), vec![]);
}

#[test]
fn a_moved_declaration_is_no_change() {
    let old = dm(vec![model("User", vec![id()])]);
    let mut moved = id();
    moved.span = Span { start: 40, end: 60 };
    let new = dm(vec![model("User", vec![moved])]);
    assert_eq!(diff_datamodels(&old, &new), vec![]);
}

#[test]
fn everything_is_created_from_nothing() {
    let mut author = scalar("author", ScalarType::Int);
    author.field_type = FieldType::Relation(RelationInfo {
        to: "User".to_string(),
        to_fields: vec!["id".to_string()],
        name: None,
        on_delete: OnDeleteStrategy::Unspecified,
    });
    let mut state = scalar("state", ScalarType::String);
    state.field_type = FieldType::Enum("State".to_string());
    let new = Datamodel {
        models: vec![model("Post", vec![id(), author.clone(), state.clone()]), model("User", vec![id()])],
        enums: vec![Enum { name: "State".to_string(), values: vec!["On".to_string(), "Off".to_string()] }],
        type_aliases: vec![cuid()],
    };
    let steps = diff_datamodels(&Datamodel::empty(), &new);
    assert_eq!(
        steps,
        vec![
            MigrationStep::CreateEnum(CreateEnum {
                name: "State".to_string(),
                values: vec!["On".to_string(), "Off".to_string()],
            }),
            MigrationStep::CreateTypeAlias(CreateTypeAlias { alias: cuid() }),
            create_model("Post"),
            create_model("User"),
            create_field("Post", id()),
            create_field("Post", author),
            create_field("Post", state),
            create_field("User", id()),
        ]
    );
    // what was inferred from nothing rebuilds the data model
    assert_eq!(apply_steps(&Datamodel::empty(), &steps), Ok(new));
}

#[test]
fn what_changed_is_updated_and_what_is_gone_is_deleted() {
    let mut old_user = model("User", vec![id(), scalar("age", ScalarType::Int), scalar("gone", ScalarType::Int)]);
    old_user.database_name = Some("users".to_string());
    let old = Datamodel {
        models: vec![old_user, model("Old", vec![id()])],
        enums: vec![
            Enum { name: "Kept".to_string(), values: vec!["A".to_string()] },
            Enum { name: "Gone".to_string(), values: vec![] },
        ],
        type_aliases: vec![cuid()],
    };
    let mut age = scalar("age", ScalarType::Float);
    age.arity = FieldArity::Optional;
    age.is_unique = true;
    age.database_name = Some("years".to_string());
    age.default_value = Some(DefaultValue::Literal("1".to_string()));
    let mut changed_alias = cuid();
    changed_alias.is_unique = true;
    let new = Datamodel {
        models: vec![model("User", vec![id(), age, scalar("name", ScalarType::String)])],
        enums: vec![Enum { name: "Kept".to_string(), values: vec!["A".to_string(), "B".to_string()] }],
        type_aliases: vec![changed_alias.clone()],
    };
    let steps = diff_datamodels(&old, &new);
    assert_eq!(
        steps,
        vec![
            MigrationStep::DeleteTypeAlias(DeleteTypeAlias { name: "CUID".to_string() }),
            MigrationStep::CreateTypeAlias(CreateTypeAlias { alias: changed_alias }),
            create_field("User", scalar("name", ScalarType::String)),
            MigrationStep::UpdateEnum(UpdateEnum {
                name: "Kept".to_string(),
                values: vec!["A".to_string(), "B".to_string()],
            }),
            MigrationStep::UpdateModel(UpdateModel {
                model: "User".to_string(),
                database_name: Some(None),
                indices: None,
                id_fields: None,
            }),
            MigrationStep::UpdateField(UpdateField {
                model: "User".to_string(),
                field: "age".to_string(),
                arity: Some(FieldArity::Optional),
                field_type: Some(FieldType::Base(ScalarType::Float)),
                database_name: Some(Some("years".to_string())),
                default_value: Some(Some(DefaultValue::Literal("1".to_string()))),
                is_unique: Some(true),
                is_id: None,
            }),
            MigrationStep::DeleteField(DeleteField { model: "User".to_string(), field: "gone".to_string() }),
            MigrationStep::DeleteModel(DeleteModel { model: "Old".to_string() }),
            MigrationStep::DeleteEnum(DeleteEnum { name: "Gone".to_string() }),
        ]
    );
    let replayed = apply_steps(&old, &steps).unwrap();
    assert_eq!(diff_datamodels(&replayed, &new), vec![]);
    assert_eq!(replayed.models, new.models);
    assert_eq!(replayed.enums, new.enums);
}

#[test]
fn a_renamed_model_is_deleted_and_created() {
    let old = dm(vec![model("A", vec![id()])]);
    let new = dm(vec![model("B", vec![id()])]);
    assert_eq!(
        diff_datamodels(&old, &new),
        vec![
            create_model("B"),
            create_field("B", id()),
            MigrationStep::DeleteModel(DeleteModel { model: "A".to_string() }),
        ]
    );
}

#[test]
fn steps_that_do_not_fit_are_errors() {
    let base = dm(vec![model("A", vec![id()])]);
    let delete_missing = MigrationStep::DeleteModel(DeleteModel { model: "abcd".to_owned() });
    assert_eq!(
        apply_step(base.clone(), &delete_missing),
        Err(StepError::ModelDoesNotExist { model: "abcd".to_string(), intent: Intent::Delete })
    );
    assert_eq!(
        apply_step(base.clone(), &create_model("A")),
        Err(StepError::ModelAlreadyExists { model: "A".to_string() })
    );
    assert_eq!(
        apply_step(base.clone(), &create_field("A", id())),
        Err(StepError::FieldAlreadyExists { model: "A".to_string(), field: "id".to_string() })
    );
    assert_eq!(
        apply_step(base.clone(), &create_field("B", id())),
        Err(StepError::ModelDoesNotExist { model: "B".to_string(), intent: Intent::Update })
    );
    assert_eq!(
        apply_step(
            base.clone(),
            &MigrationStep::DeleteField(DeleteField { model: "A".to_string(), field: "x".to_string() })
        ),
        Err(StepError::FieldDoesNotExist {
            model: "A".to_string(),
            field: "x".to_string(),
            intent: Intent::Delete
        })
    );
    assert_eq!(
        apply_step(
            base.clone(),
            &MigrationStep::UpdateField(UpdateField {
                model: "A".to_string(),
                field: "x".to_string(),
                arity: None,
                field_type: None,
                database_name: None,
                default_value: None,
                is_unique: None,
                is_id: None,
            })
        ),
        Err(StepError::FieldDoesNotExist {
            model: "A".to_string(),
            field: "x".to_string(),
            intent: Intent::Update
        })
    );
    assert_eq!(
        apply_step(
            base.clone(),
            &MigrationStep::UpdateModel(UpdateModel {
                model: "Z".to_string(),
                database_name: None,
                indices: None,
                id_fields: None,
            })
        ),
        Err(StepError::ModelDoesNotExist { model: "Z".to_string(), intent: Intent::Update })
    );
    assert_eq!(
        apply_step(base.clone(), &MigrationStep::DeleteEnum(DeleteEnum { name: "E".to_string() })),
        Err(StepError::EnumDoesNotExist { name: "E".to_string(), intent: Intent::Delete })
    );
    assert_eq!(
        apply_step(
            base.clone(),
            &MigrationStep::UpdateEnum(UpdateEnum { name: "E".to_string(), values: vec![] })
        ),
        Err(StepError::EnumDoesNotExist { name: "E".to_string(), intent: Intent::Update })
    );
    assert_eq!(
        apply_step(
            base.clone(),
            &MigrationStep::DeleteTypeAlias(DeleteTypeAlias { name: "T".to_string() })
        ),
        Err(StepError::TypeAliasDoesNotExist { name: "T".to_string() })
    );
    let with_enum = apply_step(
        base.clone(),
        &MigrationStep::CreateEnum(CreateEnum { name: "E".to_string(), values: vec![] }),
    )
    .unwrap();
    assert_eq!(
        apply_step(
            with_enum,
            &MigrationStep::CreateEnum(CreateEnum { name: "E".to_string(), values: vec![] })
        ),
        Err(StepError::EnumAlreadyExists { name: "E".to_string() })
    );
    let with_alias =
        apply_step(base.clone(), &MigrationStep::CreateTypeAlias(CreateTypeAlias { alias: cuid() })).unwrap();
    assert_eq!(with_alias.type_aliases, vec![cuid()]);
    assert_eq!(
        apply_step(with_alias, &MigrationStep::CreateTypeAlias(CreateTypeAlias { alias: cuid() })),
        Err(StepError::TypeAliasAlreadyExists { name: "CUID".to_string() })
    );
    // the first step that does not fit is the error, what follows is not applied
    assert_eq!(
        apply_steps(&base, &vec![create_model("B"), delete_missing, create_model("B")]),
        Err(StepError::ModelDoesNotExist { model: "abcd".to_string(), intent: Intent::Delete })
    );
}

#[test]
fn steps_change_what_they_name() {
    let base = dm(vec![model("A", vec![id(), scalar("x", ScalarType::Int)]), model("B", vec![id()])]);
    let after = apply_steps(
        &base,
        &vec![
            MigrationStep::UpdateField(UpdateField {
                model: "A".to_string(),
                field: "x".to_string(),
                arity: Some(FieldArity::Optional),
                field_type: None,
                database_name: None,
                default_value: None,
                is_unique: None,
                is_id: None,
            }),
            MigrationStep::DeleteField(DeleteField { model: "A".to_string(), field: "id".to_string() }),
            MigrationStep::UpdateModel(UpdateModel {
                model: "B".to_string(),
                database_name: Some(Some("bees".to_string())),
                indices: None,
                id_fields: Some(vec!["id".to_string()]),
            }),
            MigrationStep::DeleteModel(DeleteModel { model: "A".to_string() }),
            create_model("A"),
        ],
    )
    .unwrap();
    let mut b = model("B", vec![id()]);
    b.database_name = Some("bees".to_string());
    b.id_fields = vec!["id".to_string()];
    assert_eq!(after, dm(vec![b, model("A", vec![])]));
}

#[test]
fn infer_goes_on_from_what_is_assumed_to_be_applied() {
    let user = dm(vec![model("User", vec![id()])]);
    let first = infer_datamodel_steps(&Datamodel::empty(), &vec![], &user).unwrap();
    assert_eq!(first, vec![create_model("User"), create_field("User", id())]);
    let next = dm(vec![model("User", vec![id(), scalar("name", ScalarType::String)])]);
    let second = infer_datamodel_steps(&Datamodel::empty(), &first, &next).unwrap();
    assert_eq!(second, vec![create_field("User", scalar("name", ScalarType::String))]);
    // nothing is left to infer once the steps are assumed
    let mut all = first.clone();
    all.extend(second.clone());
    assert_eq!(infer_datamodel_steps(&Datamodel::empty(), &all, &next), Ok(vec![]));
    // steps that do not fit the data model are an error
    assert_eq!(
        infer_datamodel_steps(&user, &first, &next),
        Err(PlanError::InvalidStep { error: StepError::ModelAlreadyExists { model: "User".to_string() } })
    );
}

#[test]
fn calculate_database_steps_with_infer_after_an_apply_must_work() {
    let dm1 = dm(vec![model("User", vec![id()])]);
    let steps = infer_datamodel_steps(&Datamodel::empty(), &Vec::new(), &dm1).unwrap();
    let dm2 = dm(vec![model("User", vec![id(), scalar("name", ScalarType::String)])]);
    let new_steps = infer_datamodel_steps(&dm1, &Vec::new(), &dm2).unwrap();
    for family in [SqlFamily::Postgres, SqlFamily::Mysql] {
        let result = calculate_database_steps(&DialectPolicy::of(family), &steps, &new_steps).unwrap();
        assert_eq!(result.warnings, vec![]);
        assert_eq!(result.steps.len(), 1);
        match &result.steps[0] {
            SqlMigrationStep::AlterTable(AlterTable { table, changes }) => {
                assert_eq!(table, "User");
                assert_eq!(changes.len(), 1);
                match &changes[0] {
                    TableChange::AddColumn(AddColumn { column }) => assert_eq!(column.name, "name"),
                    other => panic!("a column is added, not {:?}", other),
                }
            }
            other => panic!("a table is altered, not {:?}", other),
        }
    }
    // the dialect that alters nothing in place makes the table anew
    let lite = calculate_database_steps(&DialectPolicy::of(SqlFamily::Sqlite), &steps, &new_steps).unwrap();
    assert!(lite.steps.iter().any(|s| matches!(s, SqlMigrationStep::CopyRows(_))));
    // steps that were applied already and nothing new: no plan to run
    let none = calculate_database_steps(&DialectPolicy::of(SqlFamily::Postgres), &steps, &vec![]).unwrap();
    assert_eq!(none.steps, vec![]);
    assert_eq!(none.warnings, vec![]);
    // a step that does not fit
    let bad = calculate_database_steps(&DialectPolicy::of(SqlFamily::Postgres), &steps, &steps);
    assert_eq!(
        bad,
        Err(PlanError::InvalidStep { error: StepError::ModelAlreadyExists { model: "User".to_string() } })
    );
}

#[test]
fn names_within_a_data_model_are_told_apart() {
    let good = Datamodel {
        models: vec![model("A", vec![id(), scalar("x", ScalarType::Int)]), model("B", vec![id()])],
        enums: vec![Enum { name: "A".to_string(), values: vec![] }],
        type_aliases: vec![cuid()],
    };
    assert!(good.is_well_formed());
    assert!(Datamodel::empty().is_well_formed());
    assert!(!dm(vec![model("A", vec![id()]), model("A", vec![])]).is_well_formed());
    assert!(!dm(vec![model("A", vec![id(), id()])]).is_well_formed());
    assert!(!model("A", vec![id(), id()]).is_well_formed());
    let mut enums = good.clone();
    enums.enums.push(Enum { name: "A".to_string(), values: vec!["x".to_string()] });
    assert!(!enums.is_well_formed());
    let mut aliases = good.clone();
    aliases.type_aliases.push(cuid());
    assert!(!aliases.is_well_formed());
}
