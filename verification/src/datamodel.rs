//! The declarative data model: models with their fields, enums and type
//! aliases, as the schema compiler hands them over.

use vstd::prelude::*;
use crate::schema::IndexType;
use crate::seqs::{lemma_position_of, position_of};
use crate::text::{
    all_distinct, copy_names, copy_optional_text, same_names, same_optional_text,
};

verus! {

/// The scalar types a field can have.
#[derive(Debug, Clone, Copy, PartialEq, Eq, Structural)]
pub enum ScalarType {
    Int,
    Float,
    Boolean,
    String,
    DateTime,
    Decimal,
}

/// How many values a field holds.
#[derive(Debug, Clone, Copy, PartialEq, Eq, Structural)]
pub enum FieldArity {
    Required,
    Optional,
    List,
}

/// What a relation asks for when the record it points at is deleted.
#[derive(Debug, Clone, Copy, PartialEq, Eq, Structural)]
pub enum OnDeleteStrategy {
    Cascade,
    Unspecified,
}

/// The place of a declaration in the source text.
#[derive(Debug, Clone, Copy, PartialEq, Eq, Structural)]
pub struct Span {
    pub start: usize,
    pub end: usize,
}

/// The relation a field takes part in. `to_fields` names the fields of the
/// related model that this side refers to; it is empty on the side that
/// holds no reference.
#[derive(Debug, PartialEq, Eq)]
pub struct RelationInfo {
    pub to: String,
    pub to_fields: Vec<String>,
    pub name: Option<String>,
    pub on_delete: OnDeleteStrategy,
}

/// What a field holds: a scalar, a value of an enum, or records of a model.
#[derive(Debug, PartialEq, Eq)]
pub enum FieldType {
    Base(ScalarType),
    Enum(String),
    Relation(RelationInfo),
}

/// The value a field takes when none is given.
#[derive(Debug, PartialEq, Eq)]
pub enum DefaultValue {
    /// a literal, as written
    Literal(String),
    Autoincrement,
    Now,
    Cuid,
    Uuid,
}

/// A field of a model.
#[derive(Debug, PartialEq, Eq)]
pub struct Field {
    pub name: String,
    pub arity: FieldArity,
    pub field_type: FieldType,
    pub database_name: Option<String>,
    pub default_value: Option<DefaultValue>,
    pub is_unique: bool,
    pub is_id: bool,
    pub span: Span,
}

/// An index declared on a model, over fields given by name.
#[derive(Debug, PartialEq, Eq)]
pub struct IndexDefinition {
    pub name: Option<String>,
    pub fields: Vec<String>,
    pub tpe: IndexType,
}

/// A model: a kind of record with its fields.
#[derive(Debug, PartialEq, Eq)]
pub struct Model {
    pub name: String,
    pub fields: Vec<Field>,
    pub database_name: Option<String>,
    pub indices: Vec<IndexDefinition>,
    pub id_fields: Vec<String>,
}

/// An enum with its values in declaration order.
#[derive(Debug, PartialEq, Eq)]
pub struct Enum {
    pub name: String,
    pub values: Vec<String>,
}

/// A name for a scalar type together with attributes.
#[derive(Debug, PartialEq, Eq)]
pub struct TypeAlias {
    pub name: String,
    pub scalar: ScalarType,
    pub default_value: Option<DefaultValue>,
    pub is_unique: bool,
    pub is_id: bool,
}

/// A data model: models, enums and type aliases in declaration order.
#[derive(Debug, PartialEq, Eq)]
pub struct Datamodel {
    pub models: Vec<Model>,
    pub enums: Vec<Enum>,
    pub type_aliases: Vec<TypeAlias>,
}

/// The view of `RelationInfo` that contracts speak of.
pub struct RelationView {
    pub to: Seq<char>,
    pub to_fields: Seq<Seq<char>>,
    pub name: Option<Seq<char>>,
    pub on_delete: OnDeleteStrategy,
}

/// The view of `FieldType` that contracts speak of.
pub enum FieldTypeView {
    Base(ScalarType),
    Enum(Seq<char>),
    Relation(RelationView),
}

/// The view of `DefaultValue` that contracts speak of.
pub enum DefaultValueView {
    Literal(Seq<char>),
    Autoincrement,
    Now,
    Cuid,
    Uuid,
}

/// The view of `Field` that contracts speak of.
pub struct FieldView {
    pub name: Seq<char>,
    pub arity: FieldArity,
    pub field_type: FieldTypeView,
    pub database_name: Option<Seq<char>>,
    pub default_value: Option<DefaultValueView>,
    pub is_unique: bool,
    pub is_id: bool,
    pub span: Span,
}

/// The view of `IndexDefinition` that contracts speak of.
pub struct IndexDefinitionView {
    pub name: Option<Seq<char>>,
    pub fields: Seq<Seq<char>>,
    pub tpe: IndexType,
}

/// The view of `Model` that contracts speak of.
pub struct ModelView {
    pub name: Seq<char>,
    pub fields: Seq<FieldView>,
    pub database_name: Option<Seq<char>>,
    pub indices: Seq<IndexDefinitionView>,
    pub id_fields: Seq<Seq<char>>,
}

/// The view of `Enum` that contracts speak of.
pub struct EnumView {
    pub name: Seq<char>,
    pub values: Seq<Seq<char>>,
}

/// The view of `TypeAlias` that contracts speak of.
pub struct TypeAliasView {
    pub name: Seq<char>,
    pub scalar: ScalarType,
    pub default_value: Option<DefaultValueView>,
    pub is_unique: bool,
    pub is_id: bool,
}

/// The view of `Datamodel` that contracts speak of.
pub struct DatamodelView {
    pub models: Seq<ModelView>,
    pub enums: Seq<EnumView>,
    pub type_aliases: Seq<TypeAliasView>,
}

impl DeepView for RelationInfo {
    type V = RelationView;

    open spec fn deep_view(&self) -> RelationView {
        RelationView {
            to: self.to@,
            to_fields: self.to_fields.deep_view(),
            name: self.name.deep_view(),
            on_delete: self.on_delete,
        }
    }
}

impl DeepView for FieldType {
    type V = FieldTypeView;

    open spec fn deep_view(&self) -> FieldTypeView {
        match self {
            FieldType::Base(s) => FieldTypeView::Base(*s),
            FieldType::Enum(name) => FieldTypeView::Enum(name@),
            FieldType::Relation(r) => FieldTypeView::Relation(r.deep_view()),
        }
    }
}

impl DeepView for DefaultValue {
    type V = DefaultValueView;

    open spec fn deep_view(&self) -> DefaultValueView {
        match self {
            DefaultValue::Literal(text) => DefaultValueView::Literal(text@),
            DefaultValue::Autoincrement => DefaultValueView::Autoincrement,
            DefaultValue::Now => DefaultValueView::Now,
            DefaultValue::Cuid => DefaultValueView::Cuid,
            DefaultValue::Uuid => DefaultValueView::Uuid,
        }
    }
}

impl DeepView for Field {
    type V = FieldView;

    open spec fn deep_view(&self) -> FieldView {
        FieldView {
            name: self.name@,
            arity: self.arity,
            field_type: self.field_type.deep_view(),
            database_name: self.database_name.deep_view(),
            default_value: self.default_value.deep_view(),
            is_unique: self.is_unique,
            is_id: self.is_id,
            span: self.span,
        }
    }
}

impl DeepView for IndexDefinition {
    type V = IndexDefinitionView;

    open spec fn deep_view(&self) -> IndexDefinitionView {
        IndexDefinitionView {
            name: self.name.deep_view(),
            fields: self.fields.deep_view(),
            tpe: self.tpe,
        }
    }
}

impl DeepView for Model {
    type V = ModelView;

    open spec fn deep_view(&self) -> ModelView {
        ModelView {
            name: self.name@,
            fields: self.fields.deep_view(),
            database_name: self.database_name.deep_view(),
            indices: self.indices.deep_view(),
            id_fields: self.id_fields.deep_view(),
        }
    }
}

impl DeepView for Enum {
    type V = EnumView;

    open spec fn deep_view(&self) -> EnumView {
        EnumView { name: self.name@, values: self.values.deep_view() }
    }
}

impl DeepView for TypeAlias {
    type V = TypeAliasView;

    open spec fn deep_view(&self) -> TypeAliasView {
        TypeAliasView {
            name: self.name@,
            scalar: self.scalar,
            default_value: self.default_value.deep_view(),
            is_unique: self.is_unique,
            is_id: self.is_id,
        }
    }
}

impl DeepView for Datamodel {
    type V = DatamodelView;

    open spec fn deep_view(&self) -> DatamodelView {
        DatamodelView {
            models: self.models.deep_view(),
            enums: self.enums.deep_view(),
            type_aliases: self.type_aliases.deep_view(),
        }
    }
}

/// The names of a list of fields, in order.
pub open spec fn field_names(fields: Seq<FieldView>) -> Seq<Seq<char>> {
    Seq::new(fields.len(), |i: int| fields[i].name)
}

/// The names of a list of models, in order.
pub open spec fn model_names(models: Seq<ModelView>) -> Seq<Seq<char>> {
    Seq::new(models.len(), |i: int| models[i].name)
}

/// The names of a list of enums, in order.
pub open spec fn enum_names(enums: Seq<EnumView>) -> Seq<Seq<char>> {
    Seq::new(enums.len(), |i: int| enums[i].name)
}

/// The names of a list of type aliases, in order.
pub open spec fn alias_names(aliases: Seq<TypeAliasView>) -> Seq<Seq<char>> {
    Seq::new(aliases.len(), |i: int| aliases[i].name)
}

impl FieldView {
    /// The name of the column that holds the field.
    pub open spec fn column_name(self) -> Seq<char> {
        match self.database_name {
            Some(name) => name,
            None => self.name,
        }
    }
}

impl ModelView {
    /// The first field of that name.
    pub open spec fn field(self, name: Seq<char>) -> Option<FieldView> {
        match position_of(field_names(self.fields), name) {
            Some(i) => Some(self.fields[i]),
            None => None,
        }
    }

    /// Whether the model has a field of that name.
    pub open spec fn has_field(self, name: Seq<char>) -> bool {
        self.field(name) is Some
    }

    /// The name of the table that holds the model.
    pub open spec fn table_name(self) -> Seq<char> {
        match self.database_name {
            Some(name) => name,
            None => self.name,
        }
    }

    /// No two fields share a name.
    pub open spec fn wf(self) -> bool {
        field_names(self.fields).no_duplicates()
    }
}

impl DatamodelView {
    /// The first model of that name.
    pub open spec fn model(self, name: Seq<char>) -> Option<ModelView> {
        match position_of(model_names(self.models), name) {
            Some(i) => Some(self.models[i]),
            None => None,
        }
    }

    /// Whether the data model has a model of that name.
    pub open spec fn has_model(self, name: Seq<char>) -> bool {
        self.model(name) is Some
    }

    /// The first enum of that name.
    pub open spec fn find_enum(self, name: Seq<char>) -> Option<EnumView> {
        match position_of(enum_names(self.enums), name) {
            Some(i) => Some(self.enums[i]),
            None => None,
        }
    }

    /// Whether the data model has an enum of that name.
    pub open spec fn has_enum(self, name: Seq<char>) -> bool {
        self.find_enum(name) is Some
    }

    /// The first type alias of that name.
    pub open spec fn type_alias(self, name: Seq<char>) -> Option<TypeAliasView> {
        match position_of(alias_names(self.type_aliases), name) {
            Some(i) => Some(self.type_aliases[i]),
            None => None,
        }
    }

    /// Whether the data model has a type alias of that name.
    pub open spec fn has_type_alias(self, name: Seq<char>) -> bool {
        self.type_alias(name) is Some
    }

    /// Models, enums and type aliases are each named apart, and so are the
    /// fields of each model.
    pub open spec fn wf(self) -> bool {
        &&& model_names(self.models).no_duplicates()
        &&& enum_names(self.enums).no_duplicates()
        &&& alias_names(self.type_aliases).no_duplicates()
        &&& forall|i: int| 0 <= i < self.models.len() ==> (#[trigger] self.models[i]).wf()
    }
}

impl Clone for RelationInfo {
    fn clone(&self) -> (res: Self)
        ensures
            res.deep_view() == self.deep_view(),
    {
        RelationInfo {
            to: self.to.clone(),
            to_fields: copy_names(&self.to_fields),
            name: copy_optional_text(&self.name),
            on_delete: self.on_delete,
        }
    }
}

impl Clone for FieldType {
    fn clone(&self) -> (res: Self)
        ensures
            res.deep_view() == self.deep_view(),
    {
        match self {
            FieldType::Base(s) => FieldType::Base(*s),
            FieldType::Enum(name) => FieldType::Enum(name.clone()),
            FieldType::Relation(r) => FieldType::Relation(r.clone()),
        }
    }
}

impl Clone for DefaultValue {
    fn clone(&self) -> (res: Self)
        ensures
            res.deep_view() == self.deep_view(),
    {
        match self {
            DefaultValue::Literal(text) => DefaultValue::Literal(text.clone()),
            DefaultValue::Autoincrement => DefaultValue::Autoincrement,
            DefaultValue::Now => DefaultValue::Now,
            DefaultValue::Cuid => DefaultValue::Cuid,
            DefaultValue::Uuid => DefaultValue::Uuid,
        }
    }
}

/// A copy of an optional default value.
pub fn copy_default(value: &Option<DefaultValue>) -> (res: Option<DefaultValue>)
    ensures
        res.deep_view() == value.deep_view(),
{
    match value {
        Some(v) => Some(v.clone()),
        None => None,
    }
}

impl Clone for Field {
    fn clone(&self) -> (res: Self)
        ensures
            res.deep_view() == self.deep_view(),
    {
        Field {
            name: self.name.clone(),
            arity: self.arity,
            field_type: self.field_type.clone(),
            database_name: copy_optional_text(&self.database_name),
            default_value: copy_default(&self.default_value),
            is_unique: self.is_unique,
            is_id: self.is_id,
            span: self.span,
        }
    }
}

impl Clone for IndexDefinition {
    fn clone(&self) -> (res: Self)
        ensures
            res.deep_view() == self.deep_view(),
    {
        IndexDefinition {
            name: copy_optional_text(&self.name),
            fields: copy_names(&self.fields),
            tpe: self.tpe,
        }
    }
}

/// A copy of a list of fields.
pub fn copy_fields(fields: &Vec<Field>) -> (res: Vec<Field>)
    ensures
        res.deep_view() == fields.deep_view(),
{
    let mut out: Vec<Field> = Vec::new();
    let mut i: usize = 0;
    while i < fields.len()
        invariant
            0 <= i <= fields.len(),
            out.len() == i,
            forall|j: int| 0 <= j < i ==> out@[j].deep_view() == fields@[j].deep_view(),
        decreases fields.len() - i,
    {
        out.push(fields[i].clone());
        i += 1;
    }
    assert(out.deep_view() =~= fields.deep_view());
    out
}

/// A copy of the indices declared on a model.
pub fn copy_index_definitions(indices: &Vec<IndexDefinition>) -> (res: Vec<IndexDefinition>)
    ensures
        res.deep_view() == indices.deep_view(),
{
    let mut out: Vec<IndexDefinition> = Vec::new();
    let mut i: usize = 0;
    while i < indices.len()
        invariant
            0 <= i <= indices.len(),
            out.len() == i,
            forall|j: int| 0 <= j < i ==> out@[j].deep_view() == indices@[j].deep_view(),
        decreases indices.len() - i,
    {
        out.push(indices[i].clone());
        i += 1;
    }
    assert(out.deep_view() =~= indices.deep_view());
    out
}

impl Clone for Model {
    fn clone(&self) -> (res: Self)
        ensures
            res.deep_view() == self.deep_view(),
    {
        Model {
            name: self.name.clone(),
            fields: copy_fields(&self.fields),
            database_name: copy_optional_text(&self.database_name),
            indices: copy_index_definitions(&self.indices),
            id_fields: copy_names(&self.id_fields),
        }
    }
}

impl Clone for Enum {
    fn clone(&self) -> (res: Self)
        ensures
            res.deep_view() == self.deep_view(),
    {
        Enum { name: self.name.clone(), values: copy_names(&self.values) }
    }
}

impl Clone for TypeAlias {
    fn clone(&self) -> (res: Self)
        ensures
            res.deep_view() == self.deep_view(),
    {
        TypeAlias {
            name: self.name.clone(),
            scalar: self.scalar,
            default_value: copy_default(&self.default_value),
            is_unique: self.is_unique,
            is_id: self.is_id,
        }
    }
}

impl Clone for Datamodel {
    fn clone(&self) -> (res: Self)
        ensures
            res.deep_view() == self.deep_view(),
    {
        let mut models: Vec<Model> = Vec::new();
        let mut i: usize = 0;
        while i < self.models.len()
            invariant
                0 <= i <= self.models.len(),
                models.len() == i,
                forall|j: int|
                    0 <= j < i ==> models@[j].deep_view() == self.models@[j].deep_view(),
            decreases self.models.len() - i,
        {
            models.push(self.models[i].clone());
            i += 1;
        }
        let mut enums: Vec<Enum> = Vec::new();
        let mut i: usize = 0;
        while i < self.enums.len()
            invariant
                0 <= i <= self.enums.len(),
                enums.len() == i,
                forall|j: int| 0 <= j < i ==> enums@[j].deep_view() == self.enums@[j].deep_view(),
            decreases self.enums.len() - i,
        {
            enums.push(self.enums[i].clone());
            i += 1;
        }
        let mut type_aliases: Vec<TypeAlias> = Vec::new();
        let mut i: usize = 0;
        while i < self.type_aliases.len()
            invariant
                0 <= i <= self.type_aliases.len(),
                type_aliases.len() == i,
                forall|j: int|
                    0 <= j < i ==> type_aliases@[j].deep_view()
                        == self.type_aliases@[j].deep_view(),
            decreases self.type_aliases.len() - i,
        {
            type_aliases.push(self.type_aliases[i].clone());
            i += 1;
        }
        assert(models.deep_view() =~= self.models.deep_view());
        assert(enums.deep_view() =~= self.enums.deep_view());
        assert(type_aliases.deep_view() =~= self.type_aliases.deep_view());
        Datamodel { models, enums, type_aliases }
    }
}

impl RelationInfo {
    /// Whether the two agree in every part.
    pub fn same(&self, other: &RelationInfo) -> (res: bool)
        ensures
            res == (self.deep_view() == other.deep_view()),
    {
        self.to == other.to && same_names(&self.to_fields, &other.to_fields)
            && same_optional_text(&self.name, &other.name) && self.on_delete == other.on_delete
    }
}

impl FieldType {
    /// Whether the two agree in every part.
    pub fn same(&self, other: &FieldType) -> (res: bool)
        ensures
            res == (self.deep_view() == other.deep_view()),
    {
        match (self, other) {
            (FieldType::Base(a), FieldType::Base(b)) => *a == *b,
            (FieldType::Enum(a), FieldType::Enum(b)) => *a == *b,
            (FieldType::Relation(a), FieldType::Relation(b)) => a.same(b),
            _ => false,
        }
    }
}

impl DefaultValue {
    /// Whether the two agree in every part.
    pub fn same(&self, other: &DefaultValue) -> (res: bool)
        ensures
            res == (self.deep_view() == other.deep_view()),
    {
        match (self, other) {
            (DefaultValue::Literal(a), DefaultValue::Literal(b)) => *a == *b,
            (DefaultValue::Autoincrement, DefaultValue::Autoincrement) => true,
            (DefaultValue::Now, DefaultValue::Now) => true,
            (DefaultValue::Cuid, DefaultValue::Cuid) => true,
            (DefaultValue::Uuid, DefaultValue::Uuid) => true,
            _ => false,
        }
    }
}

/// Whether two optional default values are both absent or the same.
pub fn same_default(a: &Option<DefaultValue>, b: &Option<DefaultValue>) -> (res: bool)
    ensures
        res == (a.deep_view() == b.deep_view()),
{
    match (a, b) {
        (Some(x), Some(y)) => x.same(y),
        (None, None) => true,
        _ => false,
    }
}

impl IndexDefinition {
    /// Whether the two agree in every part.
    pub fn same(&self, other: &IndexDefinition) -> (res: bool)
        ensures
            res == (self.deep_view() == other.deep_view()),
    {
        same_optional_text(&self.name, &other.name) && same_names(&self.fields, &other.fields)
            && self.tpe == other.tpe
    }
}

/// Whether two lists of declared indices are the same.
pub fn same_index_definitions(a: &Vec<IndexDefinition>, b: &Vec<IndexDefinition>) -> (res: bool)
    ensures
        res == (a.deep_view() == b.deep_view()),
{
    if a.len() != b.len() {
        assert(a.deep_view().len() != b.deep_view().len());
        return false;
    }
    let mut i: usize = 0;
    while i < a.len()
        invariant
            0 <= i <= a.len(),
            a.len() == b.len(),
            forall|j: int| 0 <= j < i ==> a@[j].deep_view() == b@[j].deep_view(),
        decreases a.len() - i,
    {
        if !a[i].same(&b[i]) {
            assert(a.deep_view()[i as int] != b.deep_view()[i as int]);
            return false;
        }
        i += 1;
    }
    assert(a.deep_view() =~= b.deep_view());
    true
}

impl Field {
    /// The name of the column that holds the field.
    pub fn column_name(&self) -> (res: &String)
        ensures
            res@ == self.deep_view().column_name(),
    {
        match &self.database_name {
            Some(name) => name,
            None => &self.name,
        }
    }
}

impl Model {
    /// The place of the first field of that name.
    pub fn field_position(&self, name: &str) -> (res: Option<usize>)
        ensures
            res.is_some() == self.deep_view().has_field(name@),
            res matches Some(i) ==> i < self.fields.len() && position_of(
                field_names(self.deep_view().fields),
                name@,
            ) == Some(i as int),
    {
        let wanted = String::from_str(name);
        let ghost names = field_names(self.deep_view().fields);
        let mut i: usize = 0;
        while i < self.fields.len()
            invariant
                0 <= i <= self.fields.len(),
                wanted@ == name@,
                names == field_names(self.deep_view().fields),
                forall|j: int| 0 <= j < i ==> names[j] != name@,
            decreases self.fields.len() - i,
        {
            if self.fields[i].name == wanted {
                proof {
                    assert(names[i as int] == name@);
                    lemma_position_of(names, name@);
                }
                return Some(i);
            }
            assert(names[i as int] != name@);
            i += 1;
        }
        proof {
            lemma_position_of(names, name@);
        }
        None
    }

    /// The first field of that name.
    pub fn field(&self, name: &str) -> (res: Option<&Field>)
        ensures
            match res {
                Some(f) => self.deep_view().field(name@) == Some(f.deep_view()),
                None => self.deep_view().field(name@) is None,
            },
    {
        match self.field_position(name) {
            Some(i) => Some(&self.fields[i]),
            None => None,
        }
    }

    /// The name of the table that holds the model.
    pub fn table_name(&self) -> (res: &String)
        ensures
            res@ == self.deep_view().table_name(),
    {
        match &self.database_name {
            Some(name) => name,
            None => &self.name,
        }
    }
}

impl Datamodel {
    /// A data model without models, enums or type aliases.
    pub fn empty() -> (res: Datamodel)
        ensures
            res.deep_view().models.len() == 0,
            res.deep_view().enums.len() == 0,
            res.deep_view().type_aliases.len() == 0,
    {
        Datamodel { models: Vec::new(), enums: Vec::new(), type_aliases: Vec::new() }
    }

    /// The place of the first model of that name.
    pub fn model_position(&self, name: &str) -> (res: Option<usize>)
        ensures
            res.is_some() == self.deep_view().has_model(name@),
            res matches Some(i) ==> i < self.models.len() && position_of(
                model_names(self.deep_view().models),
                name@,
            ) == Some(i as int),
    {
        let wanted = String::from_str(name);
        let ghost names = model_names(self.deep_view().models);
        let mut i: usize = 0;
        while i < self.models.len()
            invariant
                0 <= i <= self.models.len(),
                wanted@ == name@,
                names == model_names(self.deep_view().models),
                forall|j: int| 0 <= j < i ==> names[j] != name@,
            decreases self.models.len() - i,
        {
            if self.models[i].name == wanted {
                proof {
                    assert(names[i as int] == name@);
                    lemma_position_of(names, name@);
                }
                return Some(i);
            }
            assert(names[i as int] != name@);
            i += 1;
        }
        proof {
            lemma_position_of(names, name@);
        }
        None
    }

    /// The first model of that name.
    pub fn model(&self, name: &str) -> (res: Option<&Model>)
        ensures
            match res {
                Some(m) => self.deep_view().model(name@) == Some(m.deep_view()),
                None => self.deep_view().model(name@) is None,
            },
    {
        match self.model_position(name) {
            Some(i) => Some(&self.models[i]),
            None => None,
        }
    }

    /// The place of the first enum of that name.
    pub fn enum_position(&self, name: &str) -> (res: Option<usize>)
        ensures
            res.is_some() == self.deep_view().has_enum(name@),
            res matches Some(i) ==> i < self.enums.len() && position_of(
                enum_names(self.deep_view().enums),
                name@,
            ) == Some(i as int),
    {
        let wanted = String::from_str(name);
        let ghost names = enum_names(self.deep_view().enums);
        let mut i: usize = 0;
        while i < self.enums.len()
            invariant
                0 <= i <= self.enums.len(),
                wanted@ == name@,
                names == enum_names(self.deep_view().enums),
                forall|j: int| 0 <= j < i ==> names[j] != name@,
            decreases self.enums.len() - i,
        {
            if self.enums[i].name == wanted {
                proof {
                    assert(names[i as int] == name@);
                    lemma_position_of(names, name@);
                }
                return Some(i);
            }
            assert(names[i as int] != name@);
            i += 1;
        }
        proof {
            lemma_position_of(names, name@);
        }
        None
    }

    /// The first enum of that name.
    pub fn find_enum(&self, name: &str) -> (res: Option<&Enum>)
        ensures
            match res {
                Some(e) => self.deep_view().find_enum(name@) == Some(e.deep_view()),
                None => self.deep_view().find_enum(name@) is None,
            },
    {
        match self.enum_position(name) {
            Some(i) => Some(&self.enums[i]),
            None => None,
        }
    }

    /// The place of the first type alias of that name.
    pub fn alias_position(&self, name: &str) -> (res: Option<usize>)
        ensures
            res.is_some() == self.deep_view().has_type_alias(name@),
            res matches Some(i) ==> i < self.type_aliases.len() && position_of(
                alias_names(self.deep_view().type_aliases),
                name@,
            ) == Some(i as int),
    {
        let wanted = String::from_str(name);
        let ghost names = alias_names(self.deep_view().type_aliases);
        let mut i: usize = 0;
        while i < self.type_aliases.len()
            invariant
                0 <= i <= self.type_aliases.len(),
                wanted@ == name@,
                names == alias_names(self.deep_view().type_aliases),
                forall|j: int| 0 <= j < i ==> names[j] != name@,
            decreases self.type_aliases.len() - i,
        {
            if self.type_aliases[i].name == wanted {
                proof {
                    assert(names[i as int] == name@);
                    lemma_position_of(names, name@);
                }
                return Some(i);
            }
            assert(names[i as int] != name@);
            i += 1;
        }
        proof {
            lemma_position_of(names, name@);
        }
        None
    }

    /// The first type alias of that name.
    pub fn type_alias(&self, name: &str) -> (res: Option<&TypeAlias>)
        ensures
            match res {
                Some(a) => self.deep_view().type_alias(name@) == Some(a.deep_view()),
                None => self.deep_view().type_alias(name@) is None,
            },
    {
        match self.alias_position(name) {
            Some(i) => Some(&self.type_aliases[i]),
            None => None,
        }
    }
}

impl Model {
    /// Whether no two fields share a name.
    pub fn is_well_formed(&self) -> (res: bool)
        ensures
            res == self.deep_view().wf(),
    {
        let mut names: Vec<String> = Vec::new();
        let mut i: usize = 0;
        while i < self.fields.len()
            invariant
                0 <= i <= self.fields.len(),
                names.len() == i,
                forall|j: int| 0 <= j < i ==> names@[j]@ == self.fields@[j].name@,
            decreases self.fields.len() - i,
        {
            names.push(self.fields[i].name.clone());
            i += 1;
        }
        assert(names.deep_view() =~= field_names(self.deep_view().fields));
        all_distinct(&names)
    }
}

impl Datamodel {
    /// Whether models, enums and type aliases are each named apart, and so
    /// are the fields of each model.
    pub fn is_well_formed(&self) -> (res: bool)
        ensures
            res == self.deep_view().wf(),
    {
        let ghost models = self.deep_view().models;
        let mut model_list: Vec<String> = Vec::new();
        let mut i: usize = 0;
        while i < self.models.len()
            invariant
                0 <= i <= self.models.len(),
                models == self.deep_view().models,
                model_list.len() == i,
                forall|j: int| 0 <= j < i ==> model_list@[j]@ == self.models@[j].name@,
                forall|j: int| 0 <= j < i ==> (#[trigger] models[j]).wf(),
            decreases self.models.len() - i,
        {
            if !self.models[i].is_well_formed() {
                assert(!models[i as int].wf());
                return false;
            }
            model_list.push(self.models[i].name.clone());
            i += 1;
        }
        assert(model_list.deep_view() =~= model_names(self.deep_view().models));
        let mut enum_list: Vec<String> = Vec::new();
        let mut k: usize = 0;
        while k < self.enums.len()
            invariant
                0 <= k <= self.enums.len(),
                enum_list.len() == k,
                forall|j: int| 0 <= j < k ==> enum_list@[j]@ == self.enums@[j].name@,
            decreases self.enums.len() - k,
        {
            enum_list.push(self.enums[k].name.clone());
            k += 1;
        }
        assert(enum_list.deep_view() =~= enum_names(self.deep_view().enums));
        let mut alias_list: Vec<String> = Vec::new();
        let mut a: usize = 0;
        while a < self.type_aliases.len()
            invariant
                0 <= a <= self.type_aliases.len(),
                alias_list.len() == a,
                forall|j: int| 0 <= j < a ==> alias_list@[j]@ == self.type_aliases@[j].name@,
            decreases self.type_aliases.len() - a,
        {
            alias_list.push(self.type_aliases[a].name.clone());
            a += 1;
        }
        assert(alias_list.deep_view() =~= alias_names(self.deep_view().type_aliases));
        all_distinct(&model_list) && all_distinct(&enum_list) && all_distinct(&alias_list)
    }
}

} // verus!
