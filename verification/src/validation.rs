//! Checking a data model before anything is planned for it.

use vstd::prelude::*;
use crate::datamodel::{
    Datamodel, DatamodelView, FieldArity, FieldType, FieldTypeView, FieldView, Model, ModelView,
    Span,
};

verus! {

/// What is wrong with a data model, with the place it was declared at.
#[derive(Debug, PartialEq, Eq)]
pub enum DatamodelError {
    /// a field holds a list of scalar values, which the dialect cannot store
    ScalarListFieldsNotSupported { model: String, field: String, span: Span },
    /// a relation field points at a model that the data model does not have
    RelatedModelNotFound { model: String, field: String, related: String, span: Span },
}

/// The view of `DatamodelError` that contracts speak of.
pub enum DatamodelErrorView {
    ScalarListFieldsNotSupported { model: Seq<char>, field: Seq<char>, span: Span },
    RelatedModelNotFound { model: Seq<char>, field: Seq<char>, related: Seq<char>, span: Span },
}

impl DeepView for DatamodelError {
    type V = DatamodelErrorView;

    open spec fn deep_view(&self) -> DatamodelErrorView {
        match self {
            DatamodelError::ScalarListFieldsNotSupported { model, field, span } =>
                DatamodelErrorView::ScalarListFieldsNotSupported {
                    model: model@,
                    field: field@,
                    span: *span,
                },
            DatamodelError::RelatedModelNotFound { model, field, related, span } =>
                DatamodelErrorView::RelatedModelNotFound {
                    model: model@,
                    field: field@,
                    related: related@,
                    span: *span,
                },
        }
    }
}

impl Span {
    /// The span from `start` to `end`.
    pub fn new(start: usize, end: usize) -> (res: Span)
        ensures
            res == (Span { start, end }),
    {
        Span { start, end }
    }
}

impl DatamodelError {
    /// The error for a field that holds a list of scalar values.
    pub fn new_scalar_list_fields_are_not_supported(model: &str, field: &str, span: Span) -> (res:
        DatamodelError)
        ensures
            res.deep_view() == (DatamodelErrorView::ScalarListFieldsNotSupported {
                model: model@,
                field: field@,
                span,
            }),
    {
        DatamodelError::ScalarListFieldsNotSupported {
            model: String::from_str(model),
            field: String::from_str(field),
            span,
        }
    }
}

/// A field that holds a list of values which are not records of a model.
pub open spec fn is_scalar_list(field: FieldView) -> bool {
    field.arity == FieldArity::List && !(field.field_type is Relation)
}

/// What is wrong with one field, if anything is.
pub open spec fn field_error(dm: DatamodelView, model: Seq<char>, scalar_lists: bool) -> spec_fn(
    FieldView,
) -> Option<DatamodelErrorView> {
    |f: FieldView|
        match f.field_type {
            FieldTypeView::Relation(r) => if dm.has_model(r.to) {
                None
            } else {
                Some(
                    DatamodelErrorView::RelatedModelNotFound {
                        model: model,
                        field: f.name,
                        related: r.to,
                        span: f.span,
                    },
                )
            },
            _ => if f.arity == FieldArity::List && !scalar_lists {
                Some(
                    DatamodelErrorView::ScalarListFieldsNotSupported {
                        model: model,
                        field: f.name,
                        span: f.span,
                    },
                )
            } else {
                None
            },
        }
}

/// What is wrong with the fields of one model, in declaration order.
pub open spec fn model_errors(dm: DatamodelView, scalar_lists: bool) -> spec_fn(ModelView) -> Seq<
    DatamodelErrorView,
> {
    |m: ModelView| m.fields.filter_map(field_error(dm, m.name, scalar_lists))
}

/// Everything that is wrong with a data model, model by model and field by
/// field: one error for each field that holds a list of scalar values where
/// the dialect stores none, and one for each relation to a model that does
/// not exist.
pub open spec fn validation_errors(dm: DatamodelView, scalar_lists: bool) -> Seq<
    DatamodelErrorView,
> {
    dm.models.flat_map(model_errors(dm, scalar_lists))
}

/// What is wrong with the fields of one model.
pub fn validate_model(dm: &Datamodel, model: &Model, scalar_lists: bool) -> (res: Vec<
    DatamodelError,
>)
    ensures
        res.deep_view() == model_errors(dm.deep_view(), scalar_lists)(model.deep_view()),
{
    let ghost src = model.deep_view().fields;
    let ghost f = field_error(dm.deep_view(), model.name@, scalar_lists);
    let mut out: Vec<DatamodelError> = Vec::new();
    let mut i: usize = 0;
    while i < model.fields.len()
        invariant
            0 <= i <= model.fields.len(),
            src == model.deep_view().fields,
            f == field_error(dm.deep_view(), model.name@, scalar_lists),
            out.deep_view() == src.take(i as int).filter_map(f),
        decreases model.fields.len() - i,
    {
        let ghost before = out.deep_view();
        proof {
            src.lemma_filter_map_take_succ(f, i as int);
        }
        let field = &model.fields[i];
        match &field.field_type {
            FieldType::Relation(r) => {
                if dm.model_position(r.to.as_str()).is_none() {
                    out.push(
                        DatamodelError::RelatedModelNotFound {
                            model: model.name.clone(),
                            field: field.name.clone(),
                            related: r.to.clone(),
                            span: field.span,
                        },
                    );
                    assert(out.deep_view() =~= before.push(
                        DatamodelErrorView::RelatedModelNotFound {
                            model: model.name@,
                            field: field.name@,
                            related: r.to@,
                            span: field.span,
                        },
                    ));
                }
            },
            _ => {
                if field.arity == FieldArity::List && !scalar_lists {
                    out.push(
                        DatamodelError::ScalarListFieldsNotSupported {
                            model: model.name.clone(),
                            field: field.name.clone(),
                            span: field.span,
                        },
                    );
                    assert(out.deep_view() =~= before.push(
                        DatamodelErrorView::ScalarListFieldsNotSupported {
                            model: model.name@,
                            field: field.name@,
                            span: field.span,
                        },
                    ));
                }
            },
        }
        i += 1;
    }
    assert(src.take(model.fields.len() as int) =~= src);
    out
}

/// Everything that is wrong with a data model. `scalar_lists` says whether
/// the dialect can store a list of scalar values in a column.
pub fn validate(dm: &Datamodel, scalar_lists: bool) -> (res: Vec<DatamodelError>)
    ensures
        res.deep_view() == validation_errors(dm.deep_view(), scalar_lists),
{
    let ghost src = dm.deep_view().models;
    let ghost f = model_errors(dm.deep_view(), scalar_lists);
    let mut out: Vec<DatamodelError> = Vec::new();
    let mut i: usize = 0;
    while i < dm.models.len()
        invariant
            0 <= i <= dm.models.len(),
            src == dm.deep_view().models,
            f == model_errors(dm.deep_view(), scalar_lists),
            out.deep_view() == src.take(i as int).flat_map(f),
        decreases dm.models.len() - i,
    {
        let ghost before = out.deep_view();
        proof {
            src.lemma_flat_map_take_append(f, i as int);
        }
        let mut more = validate_model(dm, &dm.models[i], scalar_lists);
        let ghost added = more.deep_view();
        out.append(&mut more);
        assert(out.deep_view() =~= before + added);
        i += 1;
    }
    assert(src.take(dm.models.len() as int) =~= src);
    out
}

} // verus!
