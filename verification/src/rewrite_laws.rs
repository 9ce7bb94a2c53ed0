//! What holds of every table that is made anew.

use vstd::prelude::*;
use crate::orderer::{must_precede, respects_order};
use crate::rewriter::{
    carried_columns, create_index_step, create_key_step, drop_index_step, drop_key_step,
    recreation, shadow_table, shared_column, swap_steps,
};
use crate::schema::{TableView, column_names};
use crate::seqs::{lemma_filter_map_holds, lemma_filter_map_source, lemma_position_of};
use crate::steps::StepView;

verus! {

/// The rows of a table that is made anew keep the values of every column
/// that the table has before and after: a column is carried over exactly
/// when both the present and the wanted table have it.
pub proof fn law_shared_columns_are_carried(desired: TableView, actual: TableView, name: Seq<char>)
    ensures
        carried_columns(desired, actual).contains(name) <==> desired.has_column(name)
            && actual.has_column(name),
{
    let names = column_names(desired.columns);
    lemma_position_of(names, name);
    if desired.has_column(name) && actual.has_column(name) {
        let i = crate::seqs::position_of(names, name)->0;
        assert(desired.columns[i].name == names[i]);
        lemma_filter_map_holds(desired.columns, shared_column(actual), i);
    }
    if carried_columns(desired, actual).contains(name) {
        let i = lemma_filter_map_source(desired.columns, shared_column(actual), name);
        assert(names[i] == desired.columns[i].name);
    }
}

/// The kind of step at each place of the steps that make a table anew.
pub proof fn lemma_recreation_shape(desired: TableView, actual: TableView, k: int)
    requires
        0 <= k < recreation(desired, actual).len(),
    ensures
        ({
            let n1 = actual.indices.len() as int;
            let n2 = actual.foreign_keys.len() as int;
            let n4 = desired.indices.len() as int;
            let step = recreation(desired, actual)[k];
            &&& recreation(desired, actual).len() == n1 + n2 + 4 + n4
                + desired.foreign_keys.len()
            &&& k < n1 ==> step is DropIndex
            &&& n1 <= k < n1 + n2 ==> step is DropForeignKey
            &&& k == n1 + n2 ==> step == (StepView::CreateTable {
                table: shadow_table(desired, actual),
            })
            &&& k == n1 + n2 + 1 ==> step is CopyRows
            &&& k == n1 + n2 + 2 ==> step is DropTable
            &&& k == n1 + n2 + 3 ==> step is RenameTable
            &&& n1 + n2 + 4 <= k < n1 + n2 + 4 + n4 ==> step is CreateIndex
            &&& n1 + n2 + 4 + n4 <= k ==> step is CreateForeignKey
        }),
{
    let index_drops = actual.indices.map_values(drop_index_step(actual.name));
    let key_drops = actual.foreign_keys.map_values(drop_key_step(actual.name));
    let swap = swap_steps(desired, actual);
    let index_creates = desired.indices.map_values(create_index_step(actual.name));
    let key_creates = desired.foreign_keys.map_values(create_key_step(actual.name));
    let n1 = index_drops.len() as int;
    let n2 = key_drops.len() as int;
    let n4 = index_creates.len() as int;
    let all = recreation(desired, actual);
    assert(all == index_drops + key_drops + swap + index_creates + key_creates);
    assert(swap.len() == 4);
    if k < n1 {
        assert(all[k] == index_drops[k]);
    } else if k < n1 + n2 {
        assert(all[k] == key_drops[k - n1]);
    } else if k < n1 + n2 + 4 {
        assert(all[k] == swap[k - n1 - n2]);
    } else if k < n1 + n2 + 4 + n4 {
        assert(all[k] == index_creates[k - n1 - n2 - 4]);
    } else {
        assert(all[k] == key_creates[k - n1 - n2 - 4 - n4]);
    }
}

/// The steps that make a table anew stand in an order that is safe to run:
/// the indices and foreign keys of the present table go before the table is
/// dropped, the shadow is created before the rows are copied, the table is
/// dropped before the shadow takes its name, and the wanted indices and
/// foreign keys come after that.
pub proof fn law_recreation_is_ordered(desired: TableView, actual: TableView)
    ensures
        respects_order(recreation(desired, actual)),
{
    let all = recreation(desired, actual);
    assert forall|i: int, j: int|
        0 <= i < all.len() && 0 <= j < all.len() && must_precede(all[i], all[j]) implies i
        < j by {
        lemma_recreation_shape(desired, actual, i);
        lemma_recreation_shape(desired, actual, j);
    }
}

} // verus!
