use migration_planner::datamodel_apply::{Intent, StepError};
use migration_planner::dialect::SqlFamily;
use migration_planner::errors::{
    catch, into_connector_error, render_error, ConnectionInfo, MetaEntry, MetaValue, SqlError,
    UserFacingError,
};
use migration_planner::planner::PlanError;

fn info(family: SqlFamily, host: &str, port: Option<u16>, user: Option<&str>, db: Option<&str>) -> ConnectionInfo {
    ConnectionInfo {
        family,
        host: host.to_string(),
        port,
        user: user.map(|u| u.to_string()),
        database: db.map(|d| d.to_string()),
    }
}

fn text(key: &str, value: &str) -> MetaEntry {
    MetaEntry { key: key.to_string(), value: MetaValue::Text(value.to_string()) }
}

fn number(key: &str, value: u16) -> MetaEntry {
    MetaEntry { key: key.to_string(), value: MetaValue::Number(value) }
}

fn known(code: &str, message: String, meta: Vec<MetaEntry>) -> UserFacingError {
    UserFacingError { is_panic: false, message, meta, error_code: Some(code.to_string()) }
}

#[test]
fn authentication_failure_must_return_a_known_error_on_postgres() {
    let host = "127.0.0.1";
    let user = "postgres";
    let error = into_connector_error(
        &SqlError::AuthenticationFailed { user: user.to_string() },
        &info(SqlFamily::Postgres, host, Some(5432), Some(user), Some("test-db")),
    );
    let expected = known(
        "P1000",
        format!("Authentication failed against database server at `{host}`, the provided database credentials for `postgres` are not valid.\n\nPlease make sure to provide valid database credentials for the database server at `{host}`.", host = host),
        vec![text("database_user", user), text("database_host", host)],
    );
    assert_eq!(error, expected);
}

#[test]
fn authentication_failure_must_return_a_known_error_on_mysql() {
    let host = "db.example";
    let user = "root";
    let error = into_connector_error(
        &SqlError::AuthenticationFailed { user: user.to_string() },
        &info(SqlFamily::Mysql, host, Some(3306), Some(user), None),
    );
    let expected = known(
        "P1000",
        format!("Authentication failed against database server at `{host}`, the provided database credentials for `{user}` are not valid.\n\nPlease make sure to provide valid database credentials for the database server at `{host}`.", host = host, user = user),
        vec![text("database_user", user), text("database_host", host)],
    );
    assert_eq!(error, expected);
}

#[test]
fn unreachable_database_must_return_a_proper_error_on_mysql() {
    let host = "127.0.0.1";
    let port = 8787;
    let error = into_connector_error(
        &SqlError::ConnectionError,
        &info(SqlFamily::Mysql, host, Some(port), Some("root"), None),
    );
    let expected = known(
        "P1001",
        format!("Can't reach database server at `{host}`:`{port}`\n\nPlease make sure your database server is running at `{host}`:`{port}`.", host = host, port = port),
        vec![text("database_host", host), number("database_port", port)],
    );
    assert_eq!(error, expected);
}

#[test]
fn unreachable_database_must_return_a_proper_error_on_postgres() {
    let host = "localhost";
    let port = 8787;
    let error = into_connector_error(
        &SqlError::ConnectionError,
        &info(SqlFamily::Postgres, host, Some(port), Some("postgres"), None),
    );
    let expected = known(
        "P1001",
        format!("Can't reach database server at `{host}`:`{port}`\n\nPlease make sure your database server is running at `{host}`:`{port}`.", host = host, port = port),
        vec![text("database_host", host), number("database_port", port)],
    );
    assert_eq!(error, expected);
}

#[test]
fn database_does_not_exist_must_return_a_proper_error() {
    let database_name = "notmydatabase";
    let host = "127.0.0.1";
    let port = 3306;
    let error = into_connector_error(
        &SqlError::DatabaseDoesNotExist { db_name: database_name.to_string() },
        &info(SqlFamily::Mysql, host, Some(port), Some("root"), Some(database_name)),
    );
    let expected = known(
        "P1003",
        format!("Database `{database_name}` does not exist on the database server at `{database_host}:{database_port}`.", database_name = database_name, database_host = host, database_port = port),
        vec![
            text("database_name", database_name),
            text("database_host", host),
            number("database_port", port),
        ],
    );
    assert_eq!(error, expected);
}

#[test]
fn database_already_exists_must_return_a_proper_error() {
    let db_name = "database_already_exists_must_return_a_proper_error";
    let host = "127.0.0.1";
    let port = 5432;
    let error = into_connector_error(
        &SqlError::DatabaseAlreadyExists { db_name: db_name.to_string() },
        &info(SqlFamily::Postgres, host, Some(port), Some("postgres"), Some(db_name)),
    );
    let expected = known(
        "P1009",
        format!("Database `database_already_exists_must_return_a_proper_error` already exists on the database server at `{host}:{port}`", host = host, port = port),
        vec![text("database_name", db_name), text("database_host", host), number("database_port", port)],
    );
    assert_eq!(error, expected);
}

#[test]
fn database_access_denied_must_return_a_proper_error_in_cli() {
    let error = into_connector_error(
        &SqlError::DatabaseAccessDenied { db_name: "access_denied_test".to_string() },
        &info(SqlFamily::Mysql, "127.0.0.1", Some(3306), Some("jeanmichel"), Some("access_denied_test")),
    );
    let expected = known(
        "P1010",
        "User `jeanmichel` was denied access on the database `access_denied_test`".to_string(),
        vec![text("database_user", "jeanmichel"), text("database_name", "access_denied_test")],
    );
    assert_eq!(error, expected);
}

#[test]
fn database_access_denied_must_return_a_proper_error_in_rpc() {
    let result: Result<u8, SqlError> =
        Err(SqlError::DatabaseAccessDenied { db_name: "access_denied_test".to_string() });
    let error = catch(
        &info(SqlFamily::Mysql, "127.0.0.1", Some(3306), Some("jeanyves"), Some("access_denied_test")),
        result,
    )
    .unwrap_err();
    let expected = known(
        "P1010",
        "User `jeanyves` was denied access on the database `access_denied_test`".to_string(),
        vec![text("database_user", "jeanyves"), text("database_name", "access_denied_test")],
    );
    assert_eq!(error, expected);
}

#[test]
fn catch_passes_a_value_on() {
    let result: Result<u8, SqlError> = Ok(7);
    assert_eq!(catch(&info(SqlFamily::Sqlite, "localhost", None, None, None), result), Ok(7));
}

#[test]
fn command_errors_must_return_an_unknown_error() {
    let error = render_error(&PlanError::InvalidStep {
        error: StepError::ModelDoesNotExist { model: "abcd".to_string(), intent: Intent::Delete },
    });
    let expected_error = UserFacingError {
        is_panic: false,
        message: "Failure during a migration command: Generic error. (error: The model abcd does not exist in this Datamodel. It is not possible to delete it.)".to_owned(),
        meta: vec![],
        error_code: None,
    };
    assert_eq!(error, expected_error);
}

#[test]
fn unique_constraint_errors_in_migrations_must_return_a_known_error() {
    let field_name = "Fruit.name";
    let error = into_connector_error(
        &SqlError::UniqueConstraintViolation { field_name: field_name.to_string() },
        &info(SqlFamily::Mysql, "127.0.0.1", Some(3306), Some("root"), None),
    );
    let expected = known(
        "P2002",
        format!("Unique constraint failed on the field: `{}`", field_name),
        vec![text("field_name", field_name)],
    );
    assert_eq!(error, expected);
}

#[test]
fn tls_errors_must_be_mapped_in_the_cli() {
    let reason = "error performing TLS handshake: server does not support TLS";
    let error = into_connector_error(
        &SqlError::TlsError { message: reason.to_string() },
        &info(SqlFamily::Postgres, "127.0.0.1", Some(5432), Some("postgres"), None),
    );
    let expected = known(
        "P1011",
        format!("Error opening a TLS connection: error performing TLS handshake: server does not support TLS"),
        vec![text("message", reason)],
    );
    assert_eq!(error, expected);
}

#[test]
fn a_connection_without_port_shows_none() {
    let error = into_connector_error(
        &SqlError::ConnectionError,
        &info(SqlFamily::Sqlite, "localhost", None, None, None),
    );
    assert_eq!(error.meta, vec![text("database_host", "localhost")]);
    assert_eq!(
        error.message,
        "Can't reach database server at `localhost`:``\n\nPlease make sure your database server is running at `localhost`:``."
    );
}

#[test]
fn a_query_error_is_an_unknown_error() {
    let error = into_connector_error(
        &SqlError::QueryError { message: "syntax error".to_string() },
        &info(SqlFamily::Sqlite, "localhost", None, None, None),
    );
    assert_eq!(error.error_code, None);
    assert_eq!(
        error.message,
        "Failure during a migration command: Generic error. (error: syntax error)"
    );
    assert!(!error.is_panic);
}

#[test]
fn other_plan_errors_are_rendered() {
    let e = render_error(&PlanError::DestructiveChanges { warnings: vec![] });
    assert_eq!(
        e.message,
        "Failure during a migration command: Generic error. (error: The migration loses data and was not forced.)"
    );
    let e = render_error(&PlanError::InvalidDatamodel { errors: vec![] });
    assert_eq!(
        e.message,
        "Failure during a migration command: Generic error. (error: The data model is not valid.)"
    );
    let e = render_error(&PlanError::UnsupportedMigration { steps: vec![] });
    assert!(e.message.contains("wait for each other"));
}

#[test]
fn step_error_messages() {
    let cases = vec![
        (
            StepError::ModelAlreadyExists { model: "A".to_string() },
            "The model A already exists in this Datamodel. It is not possible to create it once more.",
        ),
        (
            StepError::ModelDoesNotExist { model: "A".to_string(), intent: Intent::Update },
            "The model A does not exist in this Datamodel. It is not possible to update it.",
        ),
        (
            StepError::FieldAlreadyExists { model: "A".to_string(), field: "f".to_string() },
            "The field f on model A already exists in this Datamodel. It is not possible to create it once more.",
        ),
        (
            StepError::FieldDoesNotExist { model: "A".to_string(), field: "f".to_string(), intent: Intent::Delete },
            "The field f on model A does not exist in this Datamodel. It is not possible to delete it.",
        ),
        (
            StepError::EnumAlreadyExists { name: "E".to_string() },
            "The enum E already exists in this Datamodel. It is not possible to create it once more.",
        ),
        (
            StepError::EnumDoesNotExist { name: "E".to_string(), intent: Intent::Update },
            "The enum E does not exist in this Datamodel. It is not possible to update it.",
        ),
        (
            StepError::TypeAliasAlreadyExists { name: "T".to_string() },
            "The type alias T already exists in this Datamodel. It is not possible to create it once more.",
        ),
        (
            StepError::TypeAliasDoesNotExist { name: "T".to_string() },
            "The type alias T does not exist in this Datamodel. It is not possible to delete it.",
        ),
    ];
    for (error, message) in cases {
        assert_eq!(error.message(), message);
    }
}
