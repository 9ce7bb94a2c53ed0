//! Errors as they are shown to a user: a stable code, a message, and the
//! few facts the message is made of. Credentials are never among them.

use vstd::prelude::*;
use crate::datamodel_apply::error_message;
use crate::dialect::SqlFamily;
use crate::planner::{PlanError, PlanErrorView};
use crate::text::{decimal, decimal_text};

verus! {

/// What is known of a database connection, without its password.
#[derive(Debug, PartialEq, Eq)]
pub struct ConnectionInfo {
    pub family: SqlFamily,
    pub host: String,
    pub port: Option<u16>,
    pub user: Option<String>,
    pub database: Option<String>,
}

/// The view of `ConnectionInfo` that contracts speak of.
pub struct ConnectionInfoView {
    pub family: SqlFamily,
    pub host: Seq<char>,
    pub port: Option<u16>,
    pub user: Option<Seq<char>>,
    pub database: Option<Seq<char>>,
}

impl DeepView for ConnectionInfo {
    type V = ConnectionInfoView;

    open spec fn deep_view(&self) -> ConnectionInfoView {
        ConnectionInfoView {
            family: self.family,
            host: self.host@,
            port: self.port,
            user: self.user.deep_view(),
            database: self.database.deep_view(),
        }
    }
}

/// What went wrong between the engine and the database.
#[derive(Debug, PartialEq, Eq)]
pub enum SqlError {
    AuthenticationFailed { user: String },
    ConnectionError,
    DatabaseDoesNotExist { db_name: String },
    DatabaseAlreadyExists { db_name: String },
    DatabaseAccessDenied { db_name: String },
    TlsError { message: String },
    UniqueConstraintViolation { field_name: String },
    QueryError { message: String },
}

/// The view of `SqlError` that contracts speak of.
pub enum SqlErrorView {
    AuthenticationFailed { user: Seq<char> },
    ConnectionError,
    DatabaseDoesNotExist { db_name: Seq<char> },
    DatabaseAlreadyExists { db_name: Seq<char> },
    DatabaseAccessDenied { db_name: Seq<char> },
    TlsError { message: Seq<char> },
    UniqueConstraintViolation { field_name: Seq<char> },
    QueryError { message: Seq<char> },
}

impl DeepView for SqlError {
    type V = SqlErrorView;

    open spec fn deep_view(&self) -> SqlErrorView {
        match self {
            SqlError::AuthenticationFailed { user } => SqlErrorView::AuthenticationFailed {
                user: user@,
            },
            SqlError::ConnectionError => SqlErrorView::ConnectionError,
            SqlError::DatabaseDoesNotExist { db_name } => SqlErrorView::DatabaseDoesNotExist {
                db_name: db_name@,
            },
            SqlError::DatabaseAlreadyExists { db_name } => SqlErrorView::DatabaseAlreadyExists {
                db_name: db_name@,
            },
            SqlError::DatabaseAccessDenied { db_name } => SqlErrorView::DatabaseAccessDenied {
                db_name: db_name@,
            },
            SqlError::TlsError { message } => SqlErrorView::TlsError { message: message@ },
            SqlError::UniqueConstraintViolation { field_name } =>
                SqlErrorView::UniqueConstraintViolation { field_name: field_name@ },
            SqlError::QueryError { message } => SqlErrorView::QueryError { message: message@ },
        }
    }
}

/// The value of a fact: a text or a number.
#[derive(Debug, PartialEq, Eq)]
pub enum MetaValue {
    Text(String),
    Number(u16),
}

/// The view of `MetaValue` that contracts speak of.
pub enum MetaValueView {
    Text(Seq<char>),
    Number(u16),
}

/// One fact of an error, under its key.
#[derive(Debug, PartialEq, Eq)]
pub struct MetaEntry {
    pub key: String,
    pub value: MetaValue,
}

/// The view of `MetaEntry` that contracts speak of.
pub struct MetaEntryView {
    pub key: Seq<char>,
    pub value: MetaValueView,
}

impl DeepView for MetaEntry {
    type V = MetaEntryView;

    open spec fn deep_view(&self) -> MetaEntryView {
        MetaEntryView {
            key: self.key@,
            value: match self.value {
                MetaValue::Text(t) => MetaValueView::Text(t@),
                MetaValue::Number(n) => MetaValueView::Number(n),
            },
        }
    }
}

/// An error as it is shown. A known error has a code; an unknown one has a
/// message only.
#[derive(Debug, PartialEq, Eq)]
pub struct UserFacingError {
    pub is_panic: bool,
    pub message: String,
    pub meta: Vec<MetaEntry>,
    pub error_code: Option<String>,
}

/// The view of `UserFacingError` that contracts speak of.
pub struct UserFacingErrorView {
    pub is_panic: bool,
    pub message: Seq<char>,
    pub meta: Seq<MetaEntryView>,
    pub error_code: Option<Seq<char>>,
}

impl DeepView for UserFacingError {
    type V = UserFacingErrorView;

    open spec fn deep_view(&self) -> UserFacingErrorView {
        UserFacingErrorView {
            is_panic: self.is_panic,
            message: self.message@,
            meta: self.meta.deep_view(),
            error_code: self.error_code.deep_view(),
        }
    }
}

/// A fact whose value is a text.
pub open spec fn text_entry(key: Seq<char>, value: Seq<char>) -> MetaEntryView {
    MetaEntryView { key: key, value: MetaValueView::Text(value) }
}

/// The port of a connection as a fact, where the connection has a port.
pub open spec fn port_entries(info: ConnectionInfoView) -> Seq<MetaEntryView> {
    match info.port {
        Some(p) => seq![
            MetaEntryView { key: "database_port"@, value: MetaValueView::Number(p) },
        ],
        None => Seq::empty(),
    }
}

/// The port of a connection in decimal, nothing where it has none.
pub open spec fn port_text(info: ConnectionInfoView) -> Seq<char> {
    match info.port {
        Some(p) => decimal_text(p as nat),
        None => Seq::empty(),
    }
}

/// The user of a connection, nothing where it has none.
pub open spec fn user_text(info: ConnectionInfoView) -> Seq<char> {
    match info.user {
        Some(u) => u,
        None => Seq::empty(),
    }
}

/// An error with a code.
pub open spec fn known(code: Seq<char>, message: Seq<char>, meta: Seq<MetaEntryView>)
    -> UserFacingErrorView {
    UserFacingErrorView { is_panic: false, message: message, meta: meta, error_code: Some(code) }
}

/// An error without a code: a message and nothing else.
pub open spec fn unknown(message: Seq<char>) -> UserFacingErrorView {
    UserFacingErrorView {
        is_panic: false,
        message: message,
        meta: Seq::empty(),
        error_code: None,
    }
}

/// The message of a failed command.
pub open spec fn command_failure(reason: Seq<char>) -> Seq<char> {
    "Failure during a migration command: Generic error. (error: "@ + reason + ")"@
}

/// A database error as it is shown, with what the connection adds to it.
pub open spec fn shown(error: SqlErrorView, info: ConnectionInfoView) -> UserFacingErrorView {
    match error {
        SqlErrorView::AuthenticationFailed { user } => known(
            "P1000"@,
            "Authentication failed against database server at `"@ + info.host
                + "`, the provided database credentials for `"@ + user
                + "` are not valid.\n\nPlease make sure to provide valid database credentials for the database server at `"@
                + info.host + "`."@,
            seq![text_entry("database_user"@, user), text_entry("database_host"@, info.host)],
        ),
        SqlErrorView::ConnectionError => known(
            "P1001"@,
            "Can't reach database server at `"@ + info.host + "`:`"@ + port_text(info)
                + "`\n\nPlease make sure your database server is running at `"@ + info.host
                + "`:`"@ + port_text(info) + "`."@,
            seq![text_entry("database_host"@, info.host)] + port_entries(info),
        ),
        SqlErrorView::DatabaseDoesNotExist { db_name } => known(
            "P1003"@,
            "Database `"@ + db_name + "` does not exist on the database server at `"@ + info.host
                + ":"@ + port_text(info) + "`."@,
            seq![text_entry("database_name"@, db_name), text_entry("database_host"@, info.host)]
                + port_entries(info),
        ),
        SqlErrorView::DatabaseAlreadyExists { db_name } => known(
            "P1009"@,
            "Database `"@ + db_name + "` already exists on the database server at `"@ + info.host
                + ":"@ + port_text(info) + "`"@,
            seq![text_entry("database_name"@, db_name), text_entry("database_host"@, info.host)]
                + port_entries(info),
        ),
        SqlErrorView::DatabaseAccessDenied { db_name } => known(
            "P1010"@,
            "User `"@ + user_text(info) + "` was denied access on the database `"@ + db_name
                + "`"@,
            seq![
                text_entry("database_user"@, user_text(info)),
                text_entry("database_name"@, db_name),
            ],
        ),
        SqlErrorView::TlsError { message } => known(
            "P1011"@,
            "Error opening a TLS connection: "@ + message,
            seq![text_entry("message"@, message)],
        ),
        SqlErrorView::UniqueConstraintViolation { field_name } => known(
            "P2002"@,
            "Unique constraint failed on the field: `"@ + field_name + "`"@,
            seq![text_entry("field_name"@, field_name)],
        ),
        SqlErrorView::QueryError { message } => unknown(command_failure(message)),
    }
}

/// Why there is no plan, in words.
pub open spec fn plan_error_reason(error: PlanErrorView) -> Seq<char> {
    match error {
        PlanErrorView::InvalidDatamodel { .. } => "The data model is not valid."@,
        PlanErrorView::InvalidStep { error } => error_message(error),
        PlanErrorView::UnsupportedMigration { .. } =>
            "The steps of this migration wait for each other. Split the change across two migrations."@,
        PlanErrorView::DestructiveChanges { .. } =>
            "The migration loses data and was not forced."@,
    }
}

/// The failure of a planning command as it is shown.
pub open spec fn shown_plan_error(error: PlanErrorView) -> UserFacingErrorView {
    unknown(command_failure(plan_error_reason(error)))
}

fn entry(key: &str, value: &String) -> (res: MetaEntry)
    ensures
        res.deep_view() == text_entry(key@, value@),
{
    MetaEntry { key: String::from_str(key), value: MetaValue::Text(value.clone()) }
}

fn add_port(meta: &mut Vec<MetaEntry>, info: &ConnectionInfo)
    ensures
        final(meta).deep_view() == old(meta).deep_view() + port_entries(info.deep_view()),
{
    let ghost before = meta.deep_view();
    match info.port {
        Some(p) => {
            meta.push(
                MetaEntry { key: String::from_str("database_port"), value: MetaValue::Number(p) },
            );
            assert(meta.deep_view() =~= before + port_entries(info.deep_view()));
        },
        None => {
            assert(before + Seq::<MetaEntryView>::empty() =~= before);
        },
    }
}

fn port_of(info: &ConnectionInfo) -> (res: String)
    ensures
        res@ == port_text(info.deep_view()),
{
    match info.port {
        Some(p) => decimal(p as usize),
        None => String::new(),
    }
}

fn user_of(info: &ConnectionInfo) -> (res: String)
    ensures
        res@ == user_text(info.deep_view()),
{
    match &info.user {
        Some(u) => u.clone(),
        None => String::new(),
    }
}

fn known_error(code: &str, message: String, meta: Vec<MetaEntry>) -> (res: UserFacingError)
    ensures
        res.deep_view() == known(code@, message@, meta.deep_view()),
{
    UserFacingError { is_panic: false, message, meta, error_code: Some(String::from_str(code)) }
}

fn unknown_error(reason: &String) -> (res: UserFacingError)
    ensures
        res.deep_view() == unknown(command_failure(reason@)),
{
    let mut message = String::from_str(
        "Failure during a migration command: Generic error. (error: ",
    );
    message.append(reason.as_str());
    message.append(")");
    let meta: Vec<MetaEntry> = Vec::new();
    assert(meta.deep_view() =~= Seq::<MetaEntryView>::empty());
    UserFacingError { is_panic: false, message, meta, error_code: None }
}

/// Turns a database error into the error that is shown, with what the
/// connection adds to it.
pub fn into_connector_error(error: &SqlError, info: &ConnectionInfo) -> (res: UserFacingError)
    ensures
        res.deep_view() == shown(error.deep_view(), info.deep_view()),
{
    let mut meta: Vec<MetaEntry> = Vec::new();
    assert(meta.deep_view() =~= Seq::<MetaEntryView>::empty());
    match error {
        SqlError::AuthenticationFailed { user } => {
            let mut message = String::from_str(
                "Authentication failed against database server at `",
            );
            message.append(info.host.as_str());
            message.append("`, the provided database credentials for `");
            message.append(user.as_str());
            message.append(
                "` are not valid.\n\nPlease make sure to provide valid database credentials for the database server at `",
            );
            message.append(info.host.as_str());
            message.append("`.");
            meta.push(entry("database_user", user));
            meta.push(entry("database_host", &info.host));
            assert(meta.deep_view() =~= seq![
                text_entry("database_user"@, user@),
                text_entry("database_host"@, info.host@),
            ]);
            known_error("P1000", message, meta)
        },
        SqlError::ConnectionError => {
            let port = port_of(info);
            let mut message = String::from_str("Can't reach database server at `");
            message.append(info.host.as_str());
            message.append("`:`");
            message.append(port.as_str());
            message.append("`\n\nPlease make sure your database server is running at `");
            message.append(info.host.as_str());
            message.append("`:`");
            message.append(port.as_str());
            message.append("`.");
            meta.push(entry("database_host", &info.host));
            assert(meta.deep_view() =~= seq![text_entry("database_host"@, info.host@)]);
            add_port(&mut meta, info);
            known_error("P1001", message, meta)
        },
        SqlError::DatabaseDoesNotExist { db_name } => {
            let port = port_of(info);
            let mut message = String::from_str("Database `");
            message.append(db_name.as_str());
            message.append("` does not exist on the database server at `");
            message.append(info.host.as_str());
            message.append(":");
            message.append(port.as_str());
            message.append("`.");
            meta.push(entry("database_name", db_name));
            meta.push(entry("database_host", &info.host));
            assert(meta.deep_view() =~= seq![
                text_entry("database_name"@, db_name@),
                text_entry("database_host"@, info.host@),
            ]);
            add_port(&mut meta, info);
            known_error("P1003", message, meta)
        },
        SqlError::DatabaseAlreadyExists { db_name } => {
            let port = port_of(info);
            let mut message = String::from_str("Database `");
            message.append(db_name.as_str());
            message.append("` already exists on the database server at `");
            message.append(info.host.as_str());
            message.append(":");
            message.append(port.as_str());
            message.append("`");
            meta.push(entry("database_name", db_name));
            meta.push(entry("database_host", &info.host));
            assert(meta.deep_view() =~= seq![
                text_entry("database_name"@, db_name@),
                text_entry("database_host"@, info.host@),
            ]);
            add_port(&mut meta, info);
            known_error("P1009", message, meta)
        },
        SqlError::DatabaseAccessDenied { db_name } => {
            let user = user_of(info);
            let mut message = String::from_str("User `");
            message.append(user.as_str());
            message.append("` was denied access on the database `");
            message.append(db_name.as_str());
            message.append("`");
            meta.push(entry("database_user", &user));
            meta.push(entry("database_name", db_name));
            assert(meta.deep_view() =~= seq![
                text_entry("database_user"@, user_text(info.deep_view())),
                text_entry("database_name"@, db_name@),
            ]);
            known_error("P1010", message, meta)
        },
        SqlError::TlsError { message: reason } => {
            let mut message = String::from_str("Error opening a TLS connection: ");
            message.append(reason.as_str());
            meta.push(entry("message", reason));
            assert(meta.deep_view() =~= seq![text_entry("message"@, reason@)]);
            known_error("P1011", message, meta)
        },
        SqlError::UniqueConstraintViolation { field_name } => {
            let mut message = String::from_str("Unique constraint failed on the field: `");
            message.append(field_name.as_str());
            message.append("`");
            meta.push(entry("field_name", field_name));
            assert(meta.deep_view() =~= seq![text_entry("field_name"@, field_name@)]);
            known_error("P2002", message, meta)
        },
        SqlError::QueryError { message } => unknown_error(message),
    }
}

/// Passes a result on, with a database error turned into the error that is
/// shown.
pub fn catch<O>(info: &ConnectionInfo, result: Result<O, SqlError>) -> (res: Result<
    O,
    UserFacingError,
>)
    ensures
        match result {
            Ok(value) => res == Ok::<O, UserFacingError>(value),
            Err(error) => res matches Err(e) && e.deep_view() == shown(
                error.deep_view(),
                info.deep_view(),
            ),
        },
{
    match result {
        Ok(value) => Ok(value),
        Err(error) => Err(into_connector_error(&error, info)),
    }
}

/// Turns the failure of a planning command into the error that is shown.
pub fn render_error(error: &PlanError) -> (res: UserFacingError)
    ensures
        res.deep_view() == shown_plan_error(error.deep_view()),
{
    let reason = match error {
        PlanError::InvalidDatamodel { .. } => String::from_str("The data model is not valid."),
        PlanError::InvalidStep { error } => error.message(),
        PlanError::UnsupportedMigration { .. } => String::from_str(
            "The steps of this migration wait for each other. Split the change across two migrations.",
        ),
        PlanError::DestructiveChanges { .. } => String::from_str(
            "The migration loses data and was not forced.",
        ),
    };
    unknown_error(&reason)
}

} // verus!
