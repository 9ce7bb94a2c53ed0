//! Planning of structural changes to a relational database.
//!
//! A declarative data model is projected to the schema it asks for, that
//! schema is compared with the one a database has, and the difference is
//! turned into an ordered list of steps for one SQL dialect.
//!
//! Every function states what it returns over a mathematical view of its
//! arguments: a text is a sequence of characters, a list a sequence. The
//! modules whose names end in `laws` hold what is proved of the functions
//! together.

pub mod api;
pub mod datamodel;
pub mod datamodel_apply;
pub mod datamodel_differ;
pub mod datamodel_laws;
pub mod datamodel_steps;
pub mod dialect;
pub mod errors;
pub mod order_laws;
pub mod orderer;
pub mod planner;
pub mod planner_laws;
pub mod projector;
pub mod read_query;
pub mod replay_laws;
pub mod rewrite_laws;
pub mod rewriter;
pub mod schema;
pub mod schema_differ;
pub mod schema_laws;
pub mod seqs;
pub mod steps;
pub mod text;
pub mod validation;
pub mod validation_laws;
