//! What holds of every validation.

use vstd::prelude::*;
use crate::datamodel::{DatamodelView, FieldView, ModelView};
use crate::dialect::DialectPolicy;
use crate::planner::{PlanErrorView, planned_for_model};
use crate::schema::SchemaView;
use crate::seqs::{
    lemma_filter_map_holds, lemma_filter_map_source, lemma_flat_map_holds, lemma_flat_map_source,
};
use crate::validation::{
    DatamodelErrorView, field_error, is_scalar_list, model_errors, validation_errors,
};

verus! {

/// The error for a field that holds a list of scalar values.
pub open spec fn list_error(model: Seq<char>) -> spec_fn(FieldView) -> DatamodelErrorView {
    |f: FieldView|
        DatamodelErrorView::ScalarListFieldsNotSupported {
            model: model,
            field: f.name,
            span: f.span,
        }
}

/// Whether a field holds a list of scalar values.
pub open spec fn is_list_field() -> spec_fn(FieldView) -> bool {
    |f: FieldView| is_scalar_list(f)
}

/// Whether an error is one for a list of scalar values.
pub open spec fn is_list_error() -> spec_fn(DatamodelErrorView) -> bool {
    |e: DatamodelErrorView| e is ScalarListFieldsNotSupported
}

/// The errors for the fields of a model that hold lists of scalar values:
/// one for each such field, in declaration order.
pub open spec fn model_list_errors() -> spec_fn(ModelView) -> Seq<DatamodelErrorView> {
    |m: ModelView| m.fields.filter(is_list_field()).map_values(list_error(m.name))
}

/// Among the errors of a model, those for lists of scalar values are one
/// for each such field.
pub proof fn lemma_model_list_errors(dm: DatamodelView, model: Seq<char>, fields: Seq<FieldView>)
    ensures
        fields.filter_map(field_error(dm, model, false)).filter(is_list_error()) == fields.filter(
            is_list_field(),
        ).map_values(list_error(model)),
    decreases fields.len(),
{
    let f = field_error(dm, model, false);
    if fields.len() == 0 {
        fields.lemma_filter_len(is_list_field());
        fields.filter_map(f).lemma_filter_len(is_list_error());
        assert(fields.filter_map(f).filter(is_list_error()) =~= fields.filter(
            is_list_field(),
        ).map_values(list_error(model)));
    } else {
        let front = fields.drop_last();
        let last = fields.last();
        lemma_model_list_errors(dm, model, front);
        front.lemma_filter_push(last, is_list_field());
        assert(front.push(last) =~= fields);
        match f(last) {
            Some(e) => {
                assert(front.filter_map(f) + seq![e] =~= front.filter_map(f).push(e));
                front.filter_map(f).lemma_filter_push(e, is_list_error());
                if is_scalar_list(last) {
                    assert(e == list_error(model)(last));
                    assert(front.filter(is_list_field()).push(last).map_values(
                        list_error(model),
                    ) =~= front.filter(is_list_field()).map_values(list_error(model)).push(e));
                }
            },
            None => {},
        }
    }
}

/// Filtering what the elements give together is filtering what each gives.
pub proof fn lemma_filter_of_flat_map<A, B>(
    s: Seq<A>,
    f: spec_fn(A) -> Seq<B>,
    q: spec_fn(B) -> bool,
    g: spec_fn(A) -> Seq<B>,
)
    requires
        forall|i: int| 0 <= i < s.len() ==> f(#[trigger] s[i]).filter(q) == g(s[i]),
    ensures
        s.flat_map(f).filter(q) == s.flat_map(g),
    decreases s.len(),
{
    if s.len() == 0 {
        assert(s.map_values(f) =~= Seq::<Seq<B>>::empty());
        assert(s.map_values(g) =~= Seq::<Seq<B>>::empty());
        s.flat_map(f).lemma_filter_len(q);
        assert(s.flat_map(f).filter(q) =~= s.flat_map(g));
    } else {
        let front = s.drop_last();
        assert forall|i: int| 0 <= i < front.len() implies f(#[trigger] front[i]).filter(q)
            == g(front[i]) by {
            assert(front[i] == s[i]);
        }
        lemma_filter_of_flat_map(front, f, q, g);
        front.lemma_flat_map_push(f, s.last());
        front.lemma_flat_map_push(g, s.last());
        assert(front.push(s.last()) =~= s);
        Seq::filter_distributes_over_add(front.flat_map(f), f(s.last()), q);
        assert(f(s[s.len() - 1]).filter(q) == g(s[s.len() - 1]));
    }
}

/// Where the dialect stores no lists, the errors for lists of scalar values
/// are exactly one for each field that holds such a list, with the model,
/// the field and its place in the source, in declaration order.
pub proof fn law_one_error_for_each_scalar_list(dm: DatamodelView)
    ensures
        validation_errors(dm, false).filter(is_list_error()) == dm.models.flat_map(
            model_list_errors(),
        ),
{
    assert forall|i: int| 0 <= i < dm.models.len() implies model_errors(dm, false)(
        #[trigger] dm.models[i],
    ).filter(is_list_error()) == model_list_errors()(dm.models[i]) by {
        lemma_model_list_errors(dm, dm.models[i].name, dm.models[i].fields);
    }
    lemma_filter_of_flat_map(
        dm.models,
        model_errors(dm, false),
        is_list_error(),
        model_list_errors(),
    );
}

/// A field that holds a list of scalar values has its error, and there is
/// no plan for a data model with such a field where the dialect stores no
/// lists.
pub proof fn law_scalar_list_is_rejected(
    policy: DialectPolicy,
    dm: DatamodelView,
    actual: SchemaView,
    i: int,
    j: int,
)
    requires
        !policy.scalar_lists,
        0 <= i < dm.models.len(),
        0 <= j < dm.models[i].fields.len(),
        is_scalar_list(dm.models[i].fields[j]),
    ensures
        validation_errors(dm, false).contains(
            DatamodelErrorView::ScalarListFieldsNotSupported {
                model: dm.models[i].name,
                field: dm.models[i].fields[j].name,
                span: dm.models[i].fields[j].span,
            },
        ),
        planned_for_model(policy, dm, actual) == Err::<crate::planner::PlanView, PlanErrorView>(
            PlanErrorView::InvalidDatamodel { errors: validation_errors(dm, false) },
        ),
{
    let m = dm.models[i];
    let f = m.fields[j];
    let e = DatamodelErrorView::ScalarListFieldsNotSupported {
        model: m.name,
        field: f.name,
        span: f.span,
    };
    lemma_filter_map_holds(m.fields, field_error(dm, m.name, false), j);
    assert(model_errors(dm, false)(m).contains(e));
    lemma_flat_map_holds(dm.models, model_errors(dm, false), i, e);
    let all = validation_errors(dm, false);
    let k = choose|k: int| 0 <= k < all.len() && all[k] == e;
    assert(all.len() > 0);
}

/// An error for a list of scalar values names a field of a model that
/// holds such a list, and comes only where the dialect stores none.
pub proof fn law_scalar_list_error_has_its_field(
    dm: DatamodelView,
    scalar_lists: bool,
    e: DatamodelErrorView,
) -> (at: (int, int))
    requires
        validation_errors(dm, scalar_lists).contains(e),
        e is ScalarListFieldsNotSupported,
    ensures
        !scalar_lists,
        0 <= at.0 < dm.models.len(),
        0 <= at.1 < dm.models[at.0].fields.len(),
        is_scalar_list(dm.models[at.0].fields[at.1]),
        e == (DatamodelErrorView::ScalarListFieldsNotSupported {
            model: dm.models[at.0].name,
            field: dm.models[at.0].fields[at.1].name,
            span: dm.models[at.0].fields[at.1].span,
        }),
{
    let i = lemma_flat_map_source(dm.models, model_errors(dm, scalar_lists), e);
    let m = dm.models[i];
    let j = lemma_filter_map_source(m.fields, field_error(dm, m.name, scalar_lists), e);
    (i, j)
}

} // verus!
