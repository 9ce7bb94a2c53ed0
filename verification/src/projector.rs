//! From a data model to the schema it asks for.
//!
//! Each model becomes a table and each scalar or enum field a column. A
//! relation field that refers to one field of the related model becomes a
//! column with a foreign key. Two models that list each other are joined by
//! a table of their own.

use vstd::prelude::*;
use crate::datamodel::{
    Datamodel, DatamodelView, DefaultValue, DefaultValueView, Field, FieldArity, FieldType,
    FieldTypeView, FieldView, IndexDefinition, IndexDefinitionView, Model, ModelView,
    OnDeleteStrategy, RelationInfo, RelationView, ScalarType, field_names,
};
use crate::schema::{
    Column, ColumnArity, ColumnType, ColumnTypeFamily, ColumnView, ForeignKey, ForeignKeyAction,
    ForeignKeyView, Index, IndexType, IndexView, SchemaView, SqlSchema, Table, TableView,
};
use crate::seqs::{first_match, lemma_first_match, position_of};
use crate::text::{comes_before, join, spec_join, text_lt};

verus! {

/// The family of columns that holds values of a scalar type.
pub open spec fn family_of(scalar: ScalarType) -> ColumnTypeFamily {
    match scalar {
        ScalarType::Int => ColumnTypeFamily::Int,
        ScalarType::Float => ColumnTypeFamily::Float,
        ScalarType::Boolean => ColumnTypeFamily::Boolean,
        ScalarType::String => ColumnTypeFamily::String,
        ScalarType::DateTime => ColumnTypeFamily::DateTime,
        ScalarType::Decimal => ColumnTypeFamily::Decimal,
    }
}

/// How many values the column of a field holds per row.
pub open spec fn column_arity(arity: FieldArity) -> ColumnArity {
    match arity {
        FieldArity::Required => ColumnArity::Required,
        FieldArity::Optional => ColumnArity::Nullable,
        FieldArity::List => ColumnArity::List,
    }
}

/// The family of the column of a field that is no reference: that of its
/// scalar type, text for an enum. A relation field has none of its own and
/// counts as an integer.
pub open spec fn scalar_family(field: FieldView) -> ColumnTypeFamily {
    match field.field_type {
        FieldTypeView::Base(s) => family_of(s),
        FieldTypeView::Enum(_) => ColumnTypeFamily::String,
        FieldTypeView::Relation(_) => ColumnTypeFamily::Int,
    }
}

/// A relation field that refers to exactly one field of the related model
/// and holds one record at most.
pub open spec fn holds_reference(field: FieldView) -> bool {
    field.field_type matches FieldTypeView::Relation(r) && field.arity != FieldArity::List
        && r.to_fields.len() == 1
}

/// Whether a field is held in a column of its model's table.
pub open spec fn has_column(field: FieldView) -> bool {
    match field.field_type {
        FieldTypeView::Relation(_) => holds_reference(field),
        _ => true,
    }
}

/// The field of the related model that a relation refers to.
pub open spec fn referenced_field(dm: DatamodelView, relation: RelationView) -> Option<FieldView> {
    match dm.model(relation.to) {
        Some(m) => if relation.to_fields.len() > 0 {
            m.field(relation.to_fields[0])
        } else {
            None
        },
        None => None,
    }
}

/// The family of the column that holds a field.
pub open spec fn column_family(dm: DatamodelView, field: FieldView) -> ColumnTypeFamily {
    match field.field_type {
        FieldTypeView::Relation(r) => match referenced_field(dm, r) {
            Some(f) => scalar_family(f),
            None => ColumnTypeFamily::Int,
        },
        _ => scalar_family(field),
    }
}

/// The default of a column: a literal as written, a fixed moment for the
/// time of writing, nothing for values that are made up per record.
pub open spec fn default_text(value: Option<DefaultValueView>) -> Option<Seq<char>> {
    match value {
        Some(DefaultValueView::Literal(text)) => Some(text),
        Some(DefaultValueView::Now) => Some("1970-01-01 00:00:00"@),
        _ => None,
    }
}

/// The column that holds a field, if one does.
pub open spec fn field_column(dm: DatamodelView) -> spec_fn(FieldView) -> Option<ColumnView> {
    |f: FieldView|
        if has_column(f) {
            Some(
                ColumnView {
                    name: f.column_name(),
                    tpe: ColumnType { family: column_family(dm, f), arity: column_arity(f.arity) },
                    default: default_text(f.default_value),
                    auto_increment: f.default_value == Some(DefaultValueView::Autoincrement),
                },
            )
        } else {
            None
        }
}

/// The name of the table that holds the model of that name.
pub open spec fn related_table_name(dm: DatamodelView, model: Seq<char>) -> Seq<char> {
    match dm.model(model) {
        Some(m) => m.table_name(),
        None => model,
    }
}

/// The name of the column that a relation refers to.
pub open spec fn referenced_column_name(dm: DatamodelView, relation: RelationView) -> Seq<char> {
    match referenced_field(dm, relation) {
        Some(f) => f.column_name(),
        None => if relation.to_fields.len() > 0 {
            relation.to_fields[0]
        } else {
            "id"@
        },
    }
}

/// What a foreign key does on delete: it cascades where the relation says
/// so; else a required reference restricts and an optional one is set to
/// null.
pub open spec fn key_action(arity: FieldArity, on_delete: OnDeleteStrategy) -> ForeignKeyAction {
    if on_delete == OnDeleteStrategy::Cascade {
        ForeignKeyAction::Cascade
    } else if arity == FieldArity::Required {
        ForeignKeyAction::Restrict
    } else {
        ForeignKeyAction::SetNull
    }
}

/// The foreign key behind a field, if it holds a reference.
pub open spec fn field_key(dm: DatamodelView) -> spec_fn(FieldView) -> Option<ForeignKeyView> {
    |f: FieldView|
        match f.field_type {
            FieldTypeView::Relation(r) => if holds_reference(f) {
                Some(
                    ForeignKeyView {
                        constraint_name: None,
                        columns: seq![f.column_name()],
                        referenced_table: related_table_name(dm, r.to),
                        referenced_columns: seq![referenced_column_name(dm, r)],
                        on_delete_action: key_action(f.arity, r.on_delete),
                    },
                )
            } else {
                None
            },
            _ => None,
        }
}

/// Whether a field of the related model is the other side of a relation.
pub open spec fn is_opposite(model: Seq<char>, field: Seq<char>, relation: RelationView)
    -> spec_fn(FieldView) -> bool {
    |g: FieldView|
        g.field_type matches FieldTypeView::Relation(gr) && gr.to == model && gr.name
            == relation.name && !(relation.to == model && g.name == field)
}

/// The field on the other side of a relation, if the related model has one.
pub open spec fn opposite_field(
    dm: DatamodelView,
    model: Seq<char>,
    field: Seq<char>,
    relation: RelationView,
) -> Option<FieldView> {
    match dm.model(relation.to) {
        Some(other) => match first_match(other.fields, is_opposite(model, field, relation)) {
            Some(i) => Some(other.fields[i]),
            None => None,
        },
        None => None,
    }
}

/// A reference whose other side holds one record at most.
pub open spec fn is_one_to_one(dm: DatamodelView, model: Seq<char>, field: FieldView) -> bool {
    field.field_type matches FieldTypeView::Relation(r) && holds_reference(field) && (
    opposite_field(dm, model, field.name, r) matches Some(g) && g.arity != FieldArity::List)
}

/// The index that a field asks for: a unique field gets `<table>.<column>`,
/// the reference of a one-to-one relation gets `<table>_<column>`.
pub open spec fn field_index(dm: DatamodelView, model: ModelView) -> spec_fn(FieldView) -> Option<
    IndexView,
> {
    |f: FieldView|
        if !has_column(f) {
            None
        } else if f.is_unique {
            Some(
                IndexView {
                    name: model.table_name() + "."@ + f.column_name(),
                    columns: seq![f.column_name()],
                    tpe: IndexType::Unique,
                },
            )
        } else if is_one_to_one(dm, model.name, f) {
            Some(
                IndexView {
                    name: model.table_name() + "_"@ + f.column_name(),
                    columns: seq![f.column_name()],
                    tpe: IndexType::Unique,
                },
            )
        } else {
            None
        }
}

/// The column that holds the field of that name; the name itself where the
/// model has no such field.
pub open spec fn column_name_of(model: ModelView, field: Seq<char>) -> Seq<char> {
    match model.field(field) {
        Some(f) => f.column_name(),
        None => field,
    }
}

/// The columns that hold the fields of those names, in order.
pub open spec fn column_names_of(model: ModelView, fields: Seq<Seq<char>>) -> Seq<Seq<char>> {
    Seq::new(fields.len(), |i: int| column_name_of(model, fields[i]))
}

/// The index that a model declares: under the name given, or else under
/// `<table>.<column>_<column>...`.
pub open spec fn declared_index(model: ModelView) -> spec_fn(IndexDefinitionView) -> IndexView {
    |d: IndexDefinitionView|
        IndexView {
            name: match d.name {
                Some(name) => name,
                None => model.table_name() + "."@ + spec_join(
                    column_names_of(model, d.fields),
                    "_"@,
                ),
            },
            columns: column_names_of(model, d.fields),
            tpe: d.tpe,
        }
}

/// Whether a field is marked as the identifier of its model.
pub open spec fn is_id_field() -> spec_fn(FieldView) -> bool {
    |f: FieldView| f.is_id
}

/// The primary key of a model's table: the columns of the fields the model
/// names as its identifier, or else of the first field marked as one.
pub open spec fn primary_key(model: ModelView) -> Option<Seq<Seq<char>>> {
    if model.id_fields.len() > 0 {
        Some(column_names_of(model, model.id_fields))
    } else {
        match first_match(model.fields, is_id_field()) {
            Some(i) => Some(seq![model.fields[i].column_name()]),
            None => None,
        }
    }
}

/// The table of a model.
pub open spec fn model_table(dm: DatamodelView) -> spec_fn(ModelView) -> TableView {
    |m: ModelView|
        TableView {
            name: m.table_name(),
            columns: m.fields.filter_map(field_column(dm)),
            indices: m.fields.filter_map(field_index(dm, m)) + m.indices.map_values(
                declared_index(m),
            ),
            primary_key: primary_key(m),
            foreign_keys: m.fields.filter_map(field_key(dm)),
        }
}

/// The first of two model names in dictionary order.
pub open spec fn first_name(a: Seq<char>, b: Seq<char>) -> Seq<char> {
    if text_lt(b, a) {
        b
    } else {
        a
    }
}

/// The second of two model names in dictionary order.
pub open spec fn second_name(a: Seq<char>, b: Seq<char>) -> Seq<char> {
    if text_lt(b, a) {
        a
    } else {
        b
    }
}

/// The name of the table that joins two models: `_<relation>` where the
/// relation has a name, else `_<A>To<B>` with the models in dictionary
/// order.
pub open spec fn join_table_name(model: Seq<char>, relation: RelationView) -> Seq<char> {
    match relation.name {
        Some(name) => "_"@ + name,
        None => "_"@ + first_name(model, relation.to) + "To"@ + second_name(model, relation.to),
    }
}

/// The field that identifies the records of the model of that name.
pub open spec fn id_field(dm: DatamodelView, model: Seq<char>) -> Option<FieldView> {
    match dm.model(model) {
        Some(m) => match first_match(m.fields, is_id_field()) {
            Some(i) => Some(m.fields[i]),
            None => None,
        },
        None => None,
    }
}

/// The family of the column that identifies the records of a model; integers where the model names none.
pub open spec fn id_family(dm: DatamodelView, model: Seq<char>) -> ColumnTypeFamily {
    match id_field(dm, model) {
        Some(f) => scalar_family(f),
        None => ColumnTypeFamily::Int,
    }
}

/// The column that identifies the records of a model; `id` where the model names none.
pub open spec fn id_column(dm: DatamodelView, model: Seq<char>) -> Seq<char> {
    match id_field(dm, model) {
        Some(f) => f.column_name(),
        None => "id"@,
    }
}

/// One side of a join table: the column and the foreign key to a model.
pub open spec fn join_column(dm: DatamodelView, column: Seq<char>, model: Seq<char>) -> ColumnView {
    ColumnView {
        name: column,
        tpe: ColumnType { family: id_family(dm, model), arity: ColumnArity::Required },
        default: None,
        auto_increment: false,
    }
}

/// The foreign key of a join table that points at a model.
pub open spec fn join_key(dm: DatamodelView, column: Seq<char>, model: Seq<char>)
    -> ForeignKeyView {
    ForeignKeyView {
        constraint_name: None,
        columns: seq![column],
        referenced_table: related_table_name(dm, model),
        referenced_columns: seq![id_column(dm, model)],
        on_delete_action: ForeignKeyAction::Cascade,
    }
}

/// The table that joins the two models of a many-to-many relation: a column
/// `A` for the first model and `B` for the second, each with a foreign key
/// that cascades, and a unique index over both.
pub open spec fn join_table(dm: DatamodelView, model: Seq<char>, relation: RelationView)
    -> TableView {
    let name = join_table_name(model, relation);
    let a = first_name(model, relation.to);
    let b = second_name(model, relation.to);
    TableView {
        name: name,
        columns: seq![join_column(dm, "A"@, a), join_column(dm, "B"@, b)],
        indices: seq![
            IndexView {
                name: name + "_AB_unique"@,
                columns: seq!["A"@, "B"@],
                tpe: IndexType::Unique,
            },
        ],
        primary_key: None,
        foreign_keys: seq![join_key(dm, "A"@, a), join_key(dm, "B"@, b)],
    }
}

/// Whether this side of a relation between two lists declares the join
/// table: the side whose model comes first in dictionary order, and within
/// one model the field that is declared first.
pub open spec fn comes_first(model: ModelView, field: FieldView, relation: RelationView, other: FieldView) -> bool {
    if relation.to == model.name {
        match (
            position_of(field_names(model.fields), field.name),
            position_of(field_names(model.fields), other.name),
        ) {
            (Some(i), Some(j)) => i < j,
            _ => true,
        }
    } else {
        text_lt(model.name, relation.to)
    }
}

/// Whether a field makes a join table: it lists records of a model, and the
/// other side, where there is one, lists too and does not come first.
pub open spec fn makes_join_table(dm: DatamodelView, model: ModelView, field: FieldView) -> bool {
    field.field_type matches FieldTypeView::Relation(r) && field.arity == FieldArity::List && (
    match opposite_field(dm, model.name, field.name, r) {
        Some(g) => g.arity == FieldArity::List && comes_first(model, field, r, g),
        None => true,
    })
}

/// The join table that a field makes, if it makes one.
pub open spec fn field_join_table(dm: DatamodelView, model: ModelView) -> spec_fn(FieldView)
    -> Option<TableView> {
    |f: FieldView|
        match f.field_type {
            FieldTypeView::Relation(r) => if makes_join_table(dm, model, f) {
                Some(join_table(dm, model.name, r))
            } else {
                None
            },
            _ => None,
        }
}

/// The join tables that the fields of a model make, in declaration order.
pub open spec fn model_join_tables(dm: DatamodelView) -> spec_fn(ModelView) -> Seq<TableView> {
    |m: ModelView| m.fields.filter_map(field_join_table(dm, m))
}

/// The schema that a data model asks for: the tables of its models in
/// declaration order, then its join tables.
pub open spec fn projected(dm: DatamodelView) -> SchemaView {
    SchemaView {
        tables: dm.models.map_values(model_table(dm)) + dm.models.flat_map(model_join_tables(dm)),
        sequences: Seq::empty(),
    }
}

/// The family of columns that holds values of a scalar type.
pub fn scalar_type_family(scalar: ScalarType) -> (res: ColumnTypeFamily)
    ensures
        res == family_of(scalar),
{
    match scalar {
        ScalarType::Int => ColumnTypeFamily::Int,
        ScalarType::Float => ColumnTypeFamily::Float,
        ScalarType::Boolean => ColumnTypeFamily::Boolean,
        ScalarType::String => ColumnTypeFamily::String,
        ScalarType::DateTime => ColumnTypeFamily::DateTime,
        ScalarType::Decimal => ColumnTypeFamily::Decimal,
    }
}

/// How many values the column of a field holds per row.
pub fn arity_of_column(arity: FieldArity) -> (res: ColumnArity)
    ensures
        res == column_arity(arity),
{
    match arity {
        FieldArity::Required => ColumnArity::Required,
        FieldArity::Optional => ColumnArity::Nullable,
        FieldArity::List => ColumnArity::List,
    }
}

/// The family of the column of a field that is no reference.
pub fn family_of_scalar_field(field: &Field) -> (res: ColumnTypeFamily)
    ensures
        res == scalar_family(field.deep_view()),
{
    match &field.field_type {
        FieldType::Base(s) => scalar_type_family(*s),
        FieldType::Enum(_) => ColumnTypeFamily::String,
        FieldType::Relation(_) => ColumnTypeFamily::Int,
    }
}

/// Whether a field refers to exactly one field of a related model and holds
/// one record at most.
pub fn field_holds_reference(field: &Field) -> (res: bool)
    ensures
        res == holds_reference(field.deep_view()),
{
    match &field.field_type {
        FieldType::Relation(r) => field.arity != FieldArity::List && r.to_fields.len() == 1,
        _ => false,
    }
}

/// Whether a field is held in a column of its model's table.
pub fn field_has_column(field: &Field) -> (res: bool)
    ensures
        res == has_column(field.deep_view()),
{
    match &field.field_type {
        FieldType::Relation(_) => field_holds_reference(field),
        _ => true,
    }
}

/// The field of the related model that a relation refers to.
pub fn find_referenced_field<'a>(dm: &'a Datamodel, relation: &RelationInfo) -> (res: Option<
    &'a Field,
>)
    ensures
        match res {
            Some(f) => referenced_field(dm.deep_view(), relation.deep_view()) == Some(
                f.deep_view(),
            ),
            None => referenced_field(dm.deep_view(), relation.deep_view()) is None,
        },
{
    match dm.model(relation.to.as_str()) {
        Some(m) => {
            if relation.to_fields.len() > 0 {
                assert(relation.deep_view().to_fields[0] == relation.to_fields@[0]@);
                m.field(relation.to_fields[0].as_str())
            } else {
                None
            }
        },
        None => None,
    }
}

/// The family of the column that holds a field.
pub fn family_of_column(dm: &Datamodel, field: &Field) -> (res: ColumnTypeFamily)
    ensures
        res == column_family(dm.deep_view(), field.deep_view()),
{
    match &field.field_type {
        FieldType::Relation(r) => match find_referenced_field(dm, r) {
            Some(f) => family_of_scalar_field(f),
            None => ColumnTypeFamily::Int,
        },
        _ => family_of_scalar_field(field),
    }
}

/// The default of a column.
pub fn text_of_default(value: &Option<DefaultValue>) -> (res: Option<String>)
    ensures
        res.deep_view() == default_text(value.deep_view()),
{
    match value {
        Some(DefaultValue::Literal(text)) => Some(text.clone()),
        Some(DefaultValue::Now) => Some(String::from_str("1970-01-01 00:00:00")),
        _ => None,
    }
}

/// The column that holds a field, if one does.
pub fn column_of_field(dm: &Datamodel, field: &Field) -> (res: Option<Column>)
    ensures
        res.deep_view() == field_column(dm.deep_view())(field.deep_view()),
{
    if field_has_column(field) {
        let counts = match &field.default_value {
            Some(DefaultValue::Autoincrement) => true,
            _ => false,
        };
        Some(
            Column {
                name: field.column_name().clone(),
                tpe: ColumnType {
                    family: family_of_column(dm, field),
                    arity: arity_of_column(field.arity),
                },
                default: text_of_default(&field.default_value),
                auto_increment: counts,
            },
        )
    } else {
        None
    }
}

/// The name of the table that holds the model of that name.
pub fn table_name_of(dm: &Datamodel, model: &String) -> (res: String)
    ensures
        res@ == related_table_name(dm.deep_view(), model@),
{
    match dm.model(model.as_str()) {
        Some(m) => m.table_name().clone(),
        None => model.clone(),
    }
}

/// The name of the column that a relation refers to.
pub fn column_referred_to(dm: &Datamodel, relation: &RelationInfo) -> (res: String)
    ensures
        res@ == referenced_column_name(dm.deep_view(), relation.deep_view()),
{
    match find_referenced_field(dm, relation) {
        Some(f) => f.column_name().clone(),
        None => {
            if relation.to_fields.len() > 0 {
                assert(relation.deep_view().to_fields[0] == relation.to_fields@[0]@);
                relation.to_fields[0].clone()
            } else {
                String::from_str("id")
            }
        },
    }
}

/// What a foreign key does on delete.
pub fn action_of_key(arity: FieldArity, on_delete: OnDeleteStrategy) -> (res: ForeignKeyAction)
    ensures
        res == key_action(arity, on_delete),
{
    if on_delete == OnDeleteStrategy::Cascade {
        ForeignKeyAction::Cascade
    } else if arity == FieldArity::Required {
        ForeignKeyAction::Restrict
    } else {
        ForeignKeyAction::SetNull
    }
}

/// The foreign key behind a field, if it holds a reference.
pub fn key_of_field(dm: &Datamodel, field: &Field) -> (res: Option<ForeignKey>)
    ensures
        res.deep_view() == field_key(dm.deep_view())(field.deep_view()),
{
    match &field.field_type {
        FieldType::Relation(r) => {
            if field_holds_reference(field) {
                let mut columns: Vec<String> = Vec::new();
                columns.push(field.column_name().clone());
                assert(columns.deep_view() =~= seq![field.deep_view().column_name()]);
                let mut referenced: Vec<String> = Vec::new();
                referenced.push(column_referred_to(dm, r));
                assert(referenced.deep_view() =~= seq![
                    referenced_column_name(dm.deep_view(), r.deep_view()),
                ]);
                Some(
                    ForeignKey {
                        constraint_name: None,
                        columns,
                        referenced_table: table_name_of(dm, &r.to),
                        referenced_columns: referenced,
                        on_delete_action: action_of_key(field.arity, r.on_delete),
                    },
                )
            } else {
                None
            }
        },
        _ => None,
    }
}

/// Whether a field of the related model is the other side of a relation.
pub fn field_is_opposite(model: &String, field: &String, relation: &RelationInfo, other: &Field)
    -> (res: bool)
    ensures
        res == is_opposite(model@, field@, relation.deep_view())(other.deep_view()),
{
    match &other.field_type {
        FieldType::Relation(gr) => {
            let named = match (&gr.name, &relation.name) {
                (Some(x), Some(y)) => *x == *y,
                (None, None) => true,
                _ => false,
            };
            gr.to == *model && named && !(relation.to == *model && other.name == *field)
        },
        _ => false,
    }
}

/// The field on the other side of a relation, if the related model has one.
pub fn find_opposite_field<'a>(
    dm: &'a Datamodel,
    model: &String,
    field: &String,
    relation: &RelationInfo,
) -> (res: Option<&'a Field>)
    ensures
        match res {
            Some(g) => opposite_field(dm.deep_view(), model@, field@, relation.deep_view())
                == Some(g.deep_view()),
            None => opposite_field(dm.deep_view(), model@, field@, relation.deep_view())
                is None,
        },
{
    match dm.model(relation.to.as_str()) {
        Some(other) => {
            let ghost fields = other.deep_view().fields;
            let ghost p = is_opposite(model@, field@, relation.deep_view());
            let mut i: usize = 0;
            while i < other.fields.len()
                invariant
                    0 <= i <= other.fields.len(),
                    fields == other.deep_view().fields,
                    dm.deep_view().model(relation.to@) == Some(other.deep_view()),
                    p == is_opposite(model@, field@, relation.deep_view()),
                    forall|j: int| 0 <= j < i ==> !p(fields[j]),
                decreases other.fields.len() - i,
            {
                if field_is_opposite(model, field, relation, &other.fields[i]) {
                    proof {
                        assert(fields[i as int] == other.fields@[i as int].deep_view());
                        assert(p(fields[i as int]));
                        lemma_first_match(fields, p);
                        let k = first_match(fields, p)->0;
                        if k < i {
                            assert(!p(fields[k]));
                        }
                        if k > i {
                            assert(!p(fields[i as int]));
                        }
                        assert(first_match(fields, p) == Some(i as int));
                        assert(dm.deep_view().model(relation.deep_view().to) == Some(
                            other.deep_view(),
                        ));
                    }
                    return Some(&other.fields[i]);
                }
                assert(!p(fields[i as int]));
                i += 1;
            }
            proof {
                lemma_first_match(fields, p);
            }
            None
        },
        None => None,
    }
}

/// Whether a field is a reference whose other side holds one record at most.
pub fn field_is_one_to_one(dm: &Datamodel, model: &String, field: &Field) -> (res: bool)
    ensures
        res == is_one_to_one(dm.deep_view(), model@, field.deep_view()),
{
    match &field.field_type {
        FieldType::Relation(r) => {
            if field_holds_reference(field) {
                match find_opposite_field(dm, model, &field.name, r) {
                    Some(g) => g.arity != FieldArity::List,
                    None => false,
                }
            } else {
                false
            }
        },
        _ => false,
    }
}

/// The index that a field asks for.
pub fn index_of_field(dm: &Datamodel, model: &Model, field: &Field) -> (res: Option<Index>)
    ensures
        res.deep_view() == field_index(dm.deep_view(), model.deep_view())(field.deep_view()),
{
    if !field_has_column(field) {
        return None;
    }
    let unique = field.is_unique;
    if !unique && !field_is_one_to_one(dm, &model.name, field) {
        return None;
    }
    let mut name = model.table_name().clone();
    if unique {
        name.append(".");
    } else {
        name.append("_");
    }
    name.append(field.column_name().as_str());
    let mut columns: Vec<String> = Vec::new();
    columns.push(field.column_name().clone());
    assert(columns.deep_view() =~= seq![field.deep_view().column_name()]);
    Some(Index { name, columns, tpe: IndexType::Unique })
}

/// The column that holds the field of that name.
pub fn column_name_for(model: &Model, field: &String) -> (res: String)
    ensures
        res@ == column_name_of(model.deep_view(), field@),
{
    match model.field(field.as_str()) {
        Some(f) => f.column_name().clone(),
        None => field.clone(),
    }
}

/// The columns that hold the fields of those names.
pub fn column_names_for(model: &Model, fields: &Vec<String>) -> (res: Vec<String>)
    ensures
        res.deep_view() == column_names_of(model.deep_view(), fields.deep_view()),
{
    let mut out: Vec<String> = Vec::new();
    let mut i: usize = 0;
    while i < fields.len()
        invariant
            0 <= i <= fields.len(),
            out.len() == i,
            forall|j: int|
                0 <= j < i ==> out@[j]@ == column_name_of(model.deep_view(), fields@[j]@),
        decreases fields.len() - i,
    {
        out.push(column_name_for(model, &fields[i]));
        i += 1;
    }
    assert(out.deep_view() =~= column_names_of(model.deep_view(), fields.deep_view()));
    out
}

/// The index that a model declares.
pub fn index_of_definition(model: &Model, definition: &IndexDefinition) -> (res: Index)
    ensures
        res.deep_view() == declared_index(model.deep_view())(definition.deep_view()),
{
    let columns = column_names_for(model, &definition.fields);
    let name = match &definition.name {
        Some(name) => name.clone(),
        None => {
            let mut name = model.table_name().clone();
            name.append(".");
            let joined = join(&columns, "_");
            name.append(joined.as_str());
            name
        },
    };
    Index { name, columns, tpe: definition.tpe }
}

/// The place of the first field that is marked as the identifier.
pub fn first_id_field(model: &Model) -> (res: Option<usize>)
    ensures
        match res {
            Some(i) => i < model.fields.len() && first_match(
                model.deep_view().fields,
                is_id_field(),
            ) == Some(i as int),
            None => first_match(model.deep_view().fields, is_id_field()) is None,
        },
{
    let ghost fields = model.deep_view().fields;
    let mut i: usize = 0;
    while i < model.fields.len()
        invariant
            0 <= i <= model.fields.len(),
            fields == model.deep_view().fields,
            forall|j: int| 0 <= j < i ==> !is_id_field()(fields[j]),
        decreases model.fields.len() - i,
    {
        if model.fields[i].is_id {
            proof {
                assert(is_id_field()(fields[i as int]));
                lemma_first_match(fields, is_id_field());
            }
            return Some(i);
        }
        assert(!is_id_field()(fields[i as int]));
        i += 1;
    }
    proof {
        lemma_first_match(fields, is_id_field());
    }
    None
}

/// The primary key of a model's table.
pub fn primary_key_of(model: &Model) -> (res: Option<Vec<String>>)
    ensures
        res.deep_view() == primary_key(model.deep_view()),
{
    if model.id_fields.len() > 0 {
        Some(column_names_for(model, &model.id_fields))
    } else {
        match first_id_field(model) {
            Some(i) => {
                let mut columns: Vec<String> = Vec::new();
                columns.push(model.fields[i].column_name().clone());
                assert(columns.deep_view() =~= seq![
                    model.deep_view().fields[i as int].column_name(),
                ]);
                Some(columns)
            },
            None => None,
        }
    }
}

/// The table of a model.
pub fn project_model(dm: &Datamodel, model: &Model) -> (res: Table)
    ensures
        res.deep_view() == model_table(dm.deep_view())(model.deep_view()),
{
    let ghost dv = dm.deep_view();
    let ghost mv = model.deep_view();
    let ghost src = mv.fields;
    let mut columns: Vec<Column> = Vec::new();
    let mut indices: Vec<Index> = Vec::new();
    let mut keys: Vec<ForeignKey> = Vec::new();
    let mut i: usize = 0;
    while i < model.fields.len()
        invariant
            0 <= i <= model.fields.len(),
            dv == dm.deep_view(),
            mv == model.deep_view(),
            src == mv.fields,
            columns.deep_view() == src.take(i as int).filter_map(field_column(dv)),
            indices.deep_view() == src.take(i as int).filter_map(field_index(dv, mv)),
            keys.deep_view() == src.take(i as int).filter_map(field_key(dv)),
        decreases model.fields.len() - i,
    {
        let ghost columns_before = columns.deep_view();
        let ghost indices_before = indices.deep_view();
        let ghost keys_before = keys.deep_view();
        proof {
            src.lemma_filter_map_take_succ(field_column(dv), i as int);
            src.lemma_filter_map_take_succ(field_index(dv, mv), i as int);
            src.lemma_filter_map_take_succ(field_key(dv), i as int);
        }
        let field = &model.fields[i];
        match column_of_field(dm, field) {
            Some(c) => {
                let ghost shown = c.deep_view();
                columns.push(c);
                assert(columns.deep_view() =~= columns_before.push(shown));
            },
            None => {},
        }
        match index_of_field(dm, model, field) {
            Some(x) => {
                let ghost shown = x.deep_view();
                indices.push(x);
                assert(indices.deep_view() =~= indices_before.push(shown));
            },
            None => {},
        }
        match key_of_field(dm, field) {
            Some(k) => {
                let ghost shown = k.deep_view();
                keys.push(k);
                assert(keys.deep_view() =~= keys_before.push(shown));
            },
            None => {},
        }
        i += 1;
    }
    assert(src.take(model.fields.len() as int) =~= src);
    let ghost own = indices.deep_view();
    let ghost defs = mv.indices;
    let mut k: usize = 0;
    while k < model.indices.len()
        invariant
            0 <= k <= model.indices.len(),
            mv == model.deep_view(),
            defs == mv.indices,
            indices.deep_view() == own + defs.take(k as int).map_values(declared_index(mv)),
        decreases model.indices.len() - k,
    {
        let ghost before = indices.deep_view();
        proof {
            defs.lemma_map_take_succ(declared_index(mv), k as int);
        }
        let x = index_of_definition(model, &model.indices[k]);
        let ghost shown = x.deep_view();
        indices.push(x);
        assert(indices.deep_view() =~= before.push(shown));
        k += 1;
    }
    assert(defs.take(model.indices.len() as int) =~= defs);
    Table {
        name: model.table_name().clone(),
        columns,
        indices,
        primary_key: primary_key_of(model),
        foreign_keys: keys,
    }
}

/// The field that identifies the records of the model of that name.
pub fn find_id_field<'a>(dm: &'a Datamodel, model: &String) -> (res: Option<&'a Field>)
    ensures
        match res {
            Some(f) => id_field(dm.deep_view(), model@) == Some(f.deep_view()),
            None => id_field(dm.deep_view(), model@) is None,
        },
{
    match dm.model(model.as_str()) {
        Some(m) => match first_id_field(m) {
            Some(i) => Some(&m.fields[i]),
            None => None,
        },
        None => None,
    }
}

/// The column of a join table that points at a model.
pub fn column_of_join(dm: &Datamodel, column: &str, model: &String) -> (res: Column)
    ensures
        res.deep_view() == join_column(dm.deep_view(), column@, model@),
{
    let family = match find_id_field(dm, model) {
        Some(f) => family_of_scalar_field(f),
        None => ColumnTypeFamily::Int,
    };
    Column {
        name: String::from_str(column),
        tpe: ColumnType { family, arity: ColumnArity::Required },
        default: None,
        auto_increment: false,
    }
}

/// The foreign key of a join table that points at a model.
pub fn key_of_join(dm: &Datamodel, column: &str, model: &String) -> (res: ForeignKey)
    ensures
        res.deep_view() == join_key(dm.deep_view(), column@, model@),
{
    let id = match find_id_field(dm, model) {
        Some(f) => f.column_name().clone(),
        None => String::from_str("id"),
    };
    let mut columns: Vec<String> = Vec::new();
    columns.push(String::from_str(column));
    assert(columns.deep_view() =~= seq![column@]);
    let mut referenced: Vec<String> = Vec::new();
    referenced.push(id);
    assert(referenced.deep_view() =~= seq![id_column(dm.deep_view(), model@)]);
    ForeignKey {
        constraint_name: None,
        columns,
        referenced_table: table_name_of(dm, model),
        referenced_columns: referenced,
        on_delete_action: ForeignKeyAction::Cascade,
    }
}

/// The table that joins the two models of a many-to-many relation.
pub fn make_join_table(dm: &Datamodel, model: &String, relation: &RelationInfo) -> (res: Table)
    ensures
        res.deep_view() == join_table(dm.deep_view(), model@, relation.deep_view()),
{
    let swapped = comes_before(relation.to.as_str(), model.as_str());
    let a = if swapped {
        &relation.to
    } else {
        model
    };
    let b = if swapped {
        model
    } else {
        &relation.to
    };
    let mut name = String::from_str("_");
    match &relation.name {
        Some(given) => {
            name.append(given.as_str());
        },
        None => {
            name.append(a.as_str());
            name.append("To");
            name.append(b.as_str());
        },
    }
    assert(name@ =~= join_table_name(model@, relation.deep_view()));
    let mut columns: Vec<Column> = Vec::new();
    columns.push(column_of_join(dm, "A", a));
    columns.push(column_of_join(dm, "B", b));
    let mut index_name = name.clone();
    index_name.append("_AB_unique");
    let mut index_columns: Vec<String> = Vec::new();
    index_columns.push(String::from_str("A"));
    index_columns.push(String::from_str("B"));
    assert(index_columns.deep_view() =~= seq!["A"@, "B"@]);
    let mut indices: Vec<Index> = Vec::new();
    indices.push(Index { name: index_name, columns: index_columns, tpe: IndexType::Unique });
    let mut keys: Vec<ForeignKey> = Vec::new();
    keys.push(key_of_join(dm, "A", a));
    keys.push(key_of_join(dm, "B", b));
    let ghost wanted = join_table(dm.deep_view(), model@, relation.deep_view());
    assert(columns.deep_view() =~= wanted.columns);
    assert(indices.deep_view() =~= wanted.indices);
    assert(keys.deep_view() =~= wanted.foreign_keys);
    Table { name, columns, indices, primary_key: None, foreign_keys: keys }
}

/// Whether this side of a relation between two lists declares the join
/// table.
pub fn side_comes_first(model: &Model, field: &Field, relation: &RelationInfo, other: &Field)
    -> (res: bool)
    ensures
        res == comes_first(
            model.deep_view(),
            field.deep_view(),
            relation.deep_view(),
            other.deep_view(),
        ),
{
    if relation.to == model.name {
        match (
            model.field_position(field.name.as_str()),
            model.field_position(other.name.as_str()),
        ) {
            (Some(i), Some(j)) => i < j,
            _ => true,
        }
    } else {
        comes_before(model.name.as_str(), relation.to.as_str())
    }
}

/// The join table that a field makes, if it makes one.
pub fn join_table_of_field(dm: &Datamodel, model: &Model, field: &Field) -> (res: Option<Table>)
    ensures
        res.deep_view() == field_join_table(dm.deep_view(), model.deep_view())(
            field.deep_view(),
        ),
{
    match &field.field_type {
        FieldType::Relation(r) => {
            if field.arity != FieldArity::List {
                return None;
            }
            let makes = match find_opposite_field(dm, &model.name, &field.name, r) {
                Some(g) => g.arity == FieldArity::List && side_comes_first(model, field, r, g),
                None => true,
            };
            if makes {
                Some(make_join_table(dm, &model.name, r))
            } else {
                None
            }
        },
        _ => None,
    }
}

/// The join tables that the fields of a model make.
pub fn join_tables_of_model(dm: &Datamodel, model: &Model) -> (res: Vec<Table>)
    ensures
        res.deep_view() == model_join_tables(dm.deep_view())(model.deep_view()),
{
    let ghost src = model.deep_view().fields;
    let ghost f = field_join_table(dm.deep_view(), model.deep_view());
    let mut out: Vec<Table> = Vec::new();
    let mut i: usize = 0;
    while i < model.fields.len()
        invariant
            0 <= i <= model.fields.len(),
            src == model.deep_view().fields,
            f == field_join_table(dm.deep_view(), model.deep_view()),
            out.deep_view() == src.take(i as int).filter_map(f),
        decreases model.fields.len() - i,
    {
        let ghost before = out.deep_view();
        proof {
            src.lemma_filter_map_take_succ(f, i as int);
        }
        match join_table_of_field(dm, model, &model.fields[i]) {
            Some(t) => {
                let ghost shown = t.deep_view();
                out.push(t);
                assert(out.deep_view() =~= before.push(shown));
            },
            None => {},
        }
        i += 1;
    }
    assert(src.take(model.fields.len() as int) =~= src);
    out
}

/// The schema that a data model asks for.
pub fn project(dm: &Datamodel) -> (res: SqlSchema)
    ensures
        res.deep_view() == projected(dm.deep_view()),
{
    let ghost dv = dm.deep_view();
    let ghost src = dv.models;
    let mut tables: Vec<Table> = Vec::new();
    let mut i: usize = 0;
    while i < dm.models.len()
        invariant
            0 <= i <= dm.models.len(),
            dv == dm.deep_view(),
            src == dv.models,
            tables.deep_view() == src.take(i as int).map_values(model_table(dv)),
        decreases dm.models.len() - i,
    {
        let ghost before = tables.deep_view();
        proof {
            src.lemma_map_take_succ(model_table(dv), i as int);
        }
        let t = project_model(dm, &dm.models[i]);
        let ghost shown = t.deep_view();
        tables.push(t);
        assert(tables.deep_view() =~= before.push(shown));
        i += 1;
    }
    assert(src.take(dm.models.len() as int) =~= src);
    let ghost own = tables.deep_view();
    let mut k: usize = 0;
    while k < dm.models.len()
        invariant
            0 <= k <= dm.models.len(),
            dv == dm.deep_view(),
            src == dv.models,
            tables.deep_view() == own + src.take(k as int).flat_map(model_join_tables(dv)),
        decreases dm.models.len() - k,
    {
        let ghost before = tables.deep_view();
        proof {
            src.lemma_flat_map_take_append(model_join_tables(dv), k as int);
        }
        let mut more = join_tables_of_model(dm, &dm.models[k]);
        let ghost added = more.deep_view();
        tables.append(&mut more);
        assert(tables.deep_view() =~= before + added);
        k += 1;
    }
    assert(src.take(dm.models.len() as int) =~= src);
    let sequences: Vec<crate::schema::Sequence> = Vec::new();
    assert(sequences.deep_view() =~= Seq::<Seq<char>>::empty());
    SqlSchema { tables, sequences }
}

} // verus!
