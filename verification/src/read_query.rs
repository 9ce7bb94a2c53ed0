//! Read queries against the records of a data model.

use vstd::prelude::*;

verus! {

/// The model a query reads from.
#[derive(Debug)]
pub struct ModelRef {
    pub name: String,
}

/// A relation field together with the model that declares it.
#[derive(Debug)]
pub struct RelationFieldRef {
    pub name: String,
    pub model: ModelRef,
}

/// A condition on records, held as the text it is shown as.
#[derive(Debug)]
pub struct Filter {
    pub text: String,
}

/// The fields a query returns, by name.
#[derive(Debug)]
pub struct SelectedFields {
    pub names: Vec<String>,
}

/// The window of records a query asks for.
#[derive(Debug)]
pub struct QueryArguments {
    pub skip: Option<u64>,
    pub first: Option<u64>,
    pub last: Option<u64>,
}

/// The identifier of a record.
#[derive(Debug)]
pub enum GraphqlId {
    String(String),
    Int(u64),
}

/// A query that reads records.
#[derive(Debug)]
pub enum ReadQuery {
    RecordQuery(RecordQuery),
    ManyRecordsQuery(ManyRecordsQuery),
    RelatedRecordsQuery(RelatedRecordsQuery),
    AggregateRecordsQuery(AggregateRecordsQuery),
}

/// Reads the one record that a filter picks.
#[derive(Debug)]
pub struct RecordQuery {
    pub name: String,
    pub alias: Option<String>,
    pub model: ModelRef,
    pub filter: Option<Filter>,
    pub selected_fields: SelectedFields,
    pub nested: Vec<ReadQuery>,
    pub selection_order: Vec<String>,
}

/// Reads the records of a model within a window.
#[derive(Debug)]
pub struct ManyRecordsQuery {
    pub name: String,
    pub alias: Option<String>,
    pub model: ModelRef,
    pub args: QueryArguments,
    pub selected_fields: SelectedFields,
    pub nested: Vec<ReadQuery>,
    pub selection_order: Vec<String>,
}

/// Reads the records that are related to given parents.
#[derive(Debug)]
pub struct RelatedRecordsQuery {
    pub name: String,
    pub alias: Option<String>,
    pub parent_field: RelationFieldRef,
    pub parent_ids: Option<Vec<GraphqlId>>,
    pub args: QueryArguments,
    pub selected_fields: SelectedFields,
    pub nested: Vec<ReadQuery>,
    pub selection_order: Vec<String>,
}

/// Counts the records of a model.
#[derive(Debug)]
pub struct AggregateRecordsQuery {
    pub name: String,
    pub alias: Option<String>,
    pub model: ModelRef,
}

impl RecordQuery {
    /// The filter of this query, open to change in place.
    pub fn get_filter(&mut self) -> (res: Option<&mut Filter>)
        ensures
            old(self).filter is Some <==> res is Some,
            res matches Some(f) ==> *f == old(self).filter->0 && *final(self) == (RecordQuery {
                filter: Some(*final(f)),
                ..*old(self)
            }),
            res is None ==> *final(self) == *old(self),
    {
        self.filter.as_mut()
    }

    /// Replaces the filter of this query.
    pub fn set_filter(&mut self, filter: Filter)
        ensures
            *final(self) == (RecordQuery { filter: Some(filter), ..*old(self) }),
    {
        self.filter = Some(filter)
    }
}

/// How an optional filter is shown.
pub open spec fn spec_filter_text(filter: Option<Filter>) -> Seq<char> {
    match filter {
        Some(f) => "Some("@ + f.text@ + ")"@,
        None => "None"@,
    }
}

/// Renders an optional filter.
pub fn filter_text(filter: &Option<Filter>) -> (res: String)
    ensures
        res@ == spec_filter_text(*filter),
{
    match filter {
        Some(f) => {
            let mut out = String::from_str("Some(");
            out.append(f.text.as_str());
            out.append(")");
            out
        },
        None => String::from_str("None"),
    }
}

impl ReadQuery {
    /// The name under which the query's result is returned.
    pub open spec fn spec_name(&self) -> Seq<char> {
        match self {
            ReadQuery::RecordQuery(x) => x.name@,
            ReadQuery::ManyRecordsQuery(x) => x.name@,
            ReadQuery::RelatedRecordsQuery(x) => x.name@,
            ReadQuery::AggregateRecordsQuery(x) => x.name@,
        }
    }

    /// The name under which the query's result is returned.
    pub fn name(&self) -> (res: &str)
        ensures
            res@ == self.spec_name(),
    {
        match self {
            ReadQuery::RecordQuery(x) => x.name.as_str(),
            ReadQuery::ManyRecordsQuery(x) => x.name.as_str(),
            ReadQuery::RelatedRecordsQuery(x) => x.name.as_str(),
            ReadQuery::AggregateRecordsQuery(x) => x.name.as_str(),
        }
    }

    /// The filter of a record query, open to change in place. Only a record
    /// query carries one.
    pub fn get_filter(&mut self) -> (res: Option<&mut Filter>)
        requires
            *old(self) is RecordQuery,
        ensures
            old(self)->RecordQuery_0.filter is Some <==> res is Some,
            res matches Some(f) ==> *f == old(self)->RecordQuery_0.filter->0 && *final(self)
                == ReadQuery::RecordQuery(
                RecordQuery { filter: Some(*final(f)), ..old(self)->RecordQuery_0 },
            ),
            res is None ==> *final(self) == *old(self),
    {
        match self {
            ReadQuery::RecordQuery(q) => q.get_filter(),
            _ => None,
        }
    }

    /// Replaces the filter of a record query.
    pub fn set_filter(&mut self, filter: Filter)
        requires
            *old(self) is RecordQuery,
        ensures
            *final(self) == ReadQuery::RecordQuery(
                RecordQuery { filter: Some(filter), ..old(self)->RecordQuery_0 },
            ),
    {
        match self {
            ReadQuery::RecordQuery(q) => q.set_filter(filter),
            _ => {},
        }
    }

    /// The text a query is shown as.
    pub open spec fn spec_text(&self) -> Seq<char> {
        match self {
            ReadQuery::RecordQuery(q) => "RecordQuery(name: '"@ + q.name@ + "', filter: "@
                + spec_filter_text(q.filter) + ")"@,
            ReadQuery::ManyRecordsQuery(q) => "ManyRecordsQuery(name: '"@ + q.name@
                + "', model: "@ + q.model.name@ + ")"@,
            ReadQuery::RelatedRecordsQuery(q) => "RelatedRecordsQuery(name: '"@ + q.name@
                + "', parent model: "@ + q.parent_field.model.name@
                + ", parent relation field: "@ + q.parent_field.name@ + ")"@,
            ReadQuery::AggregateRecordsQuery(q) => "AggregateRecordsQuery: "@ + q.name@,
        }
    }

    /// Renders the query as one line of text.
    pub fn to_text(&self) -> (res: String)
        ensures
            res@ == self.spec_text(),
    {
        match self {
            ReadQuery::RecordQuery(q) => {
                let mut out = String::from_str("RecordQuery(name: '");
                out.append(q.name.as_str());
                out.append("', filter: ");
                let shown = filter_text(&q.filter);
                out.append(shown.as_str());
                out.append(")");
                out
            },
            ReadQuery::ManyRecordsQuery(q) => {
                let mut out = String::from_str("ManyRecordsQuery(name: '");
                out.append(q.name.as_str());
                out.append("', model: ");
                out.append(q.model.name.as_str());
                out.append(")");
                out
            },
            ReadQuery::RelatedRecordsQuery(q) => {
                let mut out = String::from_str("RelatedRecordsQuery(name: '");
                out.append(q.name.as_str());
                out.append("', parent model: ");
                out.append(q.parent_field.model.name.as_str());
                out.append(", parent relation field: ");
                out.append(q.parent_field.name.as_str());
                out.append(")");
                out
            },
            ReadQuery::AggregateRecordsQuery(q) => {
                let mut out = String::from_str("AggregateRecordsQuery: ");
                out.append(q.name.as_str());
                out
            },
        }
    }
}

} // verus!
