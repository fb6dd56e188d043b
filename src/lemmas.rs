use vstd::prelude::*;

use crate::model::{
    all_set_to, count_active, every_completed, next_list, passes, shown, without_completed,
    Filter, Msg,
};
use crate::todoitem::TodoItem;

verus! {

/// Whether no item of `items` is completed.
pub open spec fn none_completed(items: Seq<TodoItem>) -> bool {
    forall|i: int| 0 <= i < items.len() ==> !(#[trigger] items[i].completed)
}

/// Toggling the same valid index twice gives back the list it started
/// from, so that item's flag and the number of active items are restored.
pub proof fn lemma_toggle_twice(items: Seq<TodoItem>, i: usize)
    requires
        i < items.len(),
    ensures
        next_list(next_list(items, Msg::ToggleCompleted(i)), Msg::ToggleCompleted(i)) == items,
        next_list(next_list(items, Msg::ToggleCompleted(i)), Msg::ToggleCompleted(i))[i as int].completed
            == items[i as int].completed,
        count_active(next_list(next_list(items, Msg::ToggleCompleted(i)), Msg::ToggleCompleted(i)))
            == count_active(items),
{
    let twice = next_list(next_list(items, Msg::ToggleCompleted(i)), Msg::ToggleCompleted(i));
    assert(twice =~= items);
}

/// Positions in `items` of the items that are not completed, ascending.
pub open spec fn open_positions(items: Seq<TodoItem>) -> Seq<int>
    decreases items.len(),
{
    if items.len() == 0 {
        Seq::empty()
    } else {
        let rest = open_positions(items.drop_last());
        if items.last().completed {
            rest
        } else {
            rest.push(items.len() - 1)
        }
    }
}

/// After clearing completed items no completed item remains, and the
/// survivors are exactly the open items, in their former relative order:
/// the k-th survivor is the item found at the k-th open position, and those
/// positions strictly increase.
pub proof fn lemma_clear_completed(items: Seq<TodoItem>)
    ensures
        ({
            let r = next_list(items, Msg::ClearCompleted);
            let pos = open_positions(items);
            &&& r == without_completed(items)
            &&& r.len() == count_active(items)
            &&& forall|k: int| 0 <= k < r.len() ==> !(#[trigger] r[k]).completed
            &&& pos.len() == r.len()
            &&& forall|k: int|
                0 <= k < r.len() ==> 0 <= #[trigger] pos[k] < items.len() && items[pos[k]] == r[k]
            &&& forall|j: int, k: int| 0 <= j < k < pos.len() ==> #[trigger] pos[j] < #[trigger] pos[k]
        }),
{
    let r = without_completed(items);
    assert forall|k: int| 0 <= k < r.len() implies !(#[trigger] r[k]).completed by {
        items.lemma_filter_pred(|t: TodoItem| !t.completed, k);
    }
    lemma_survivors(items);
}

proof fn lemma_survivors(items: Seq<TodoItem>)
    ensures
        ({
            let r = without_completed(items);
            let pos = open_positions(items);
            &&& r.len() == count_active(items)
            &&& pos.len() == r.len()
            &&& forall|k: int|
                0 <= k < r.len() ==> 0 <= #[trigger] pos[k] < items.len() && items[pos[k]] == r[k]
            &&& forall|j: int, k: int| 0 <= j < k < pos.len() ==> #[trigger] pos[j] < #[trigger] pos[k]
        }),
    decreases items.len(),
{
    reveal(Seq::filter);
    if items.len() > 0 {
        let init = items.drop_last();
        lemma_survivors(init);
        let r = without_completed(items);
        let pos = open_positions(items);
        let r0 = without_completed(init);
        let p0 = open_positions(init);
        assert forall|k: int| 0 <= k < r.len() implies 0 <= #[trigger] pos[k] < items.len()
            && items[pos[k]] == r[k] by {
            if k < r0.len() {
                assert(pos[k] == p0[k]);
                assert(r[k] == r0[k]);
                assert(init[p0[k]] == items[p0[k]]);
            }
        }
        assert forall|j: int, k: int| 0 <= j < k < pos.len() implies #[trigger] pos[j] < #[trigger] pos[k] by {
            if k < p0.len() {
                assert(pos[j] == p0[j] && pos[k] == p0[k]);
            } else {
                assert(pos[j] == p0[j]);
                assert(0 <= p0[j] < init.len());
            }
        }
    }
}

/// Toggling all twice in a row restores every flag when the flags start
/// out all equal.  (On a list mixing done and open items the first toggle
/// completes everything and the second clears everything.)
pub proof fn lemma_toggle_all_twice(items: Seq<TodoItem>)
    requires
        every_completed(items) || none_completed(items),
    ensures
        next_list(next_list(items, Msg::ToggleAllCompleted), Msg::ToggleAllCompleted) == items,
{
    let once = next_list(items, Msg::ToggleAllCompleted);
    let twice = next_list(once, Msg::ToggleAllCompleted);
    if items.len() == 0 {
        assert(once =~= items);
        assert(twice =~= items);
    } else if every_completed(items) {
        assert(once == all_set_to(items, false));
        assert(!once[0].completed);
        assert(!every_completed(once));
        assert(twice == all_set_to(once, true));
        assert forall|k: int| 0 <= k < items.len() implies twice[k] == items[k] by {
            assert(items[k].completed);
        }
        assert(twice =~= items);
    } else {
        assert(!items[0].completed);
        assert(once == all_set_to(items, true));
        assert(every_completed(once));
        assert(twice == all_set_to(once, false));
        assert forall|k: int| 0 <= k < items.len() implies twice[k] == items[k] by {
            assert(!items[k].completed);
        }
        assert(twice =~= items);
    }
}

/// Every shown entry names its own position in the full list, holds the
/// item found there, and passes the filter.
pub proof fn lemma_shown_entries(items: Seq<TodoItem>, filter: Filter)
    requires
        items.len() <= usize::MAX,
    ensures
        forall|k: int|
            0 <= k < shown(items, filter).len() ==> {
                let e = #[trigger] shown(items, filter)[k];
                &&& e.0 < items.len()
                &&& items[e.0 as int] == e.1
                &&& passes(filter, e.1)
            },
    decreases items.len(),
{
    if items.len() > 0 {
        let init = items.drop_last();
        let rest = shown(init, filter);
        lemma_shown_entries(init, filter);
        assert forall|k: int| 0 <= k < shown(items, filter).len() implies {
            let e = #[trigger] shown(items, filter)[k];
            &&& e.0 < items.len()
            &&& items[e.0 as int] == e.1
            &&& passes(filter, e.1)
        } by {
            if k < rest.len() {
                let e = rest[k];
                assert(shown(items, filter)[k] == e);
                assert(init[e.0 as int] == items[e.0 as int]);
            } else {
                assert(shown(items, filter)[k] == ((items.len() - 1) as usize, items.last()));
            }
        }
    }
}

/// With the `All` filter every item is shown, in order, with its index.
pub proof fn lemma_shown_all(items: Seq<TodoItem>)
    ensures
        shown(items, Filter::All).len() == items.len(),
        forall|k: int|
            0 <= k < items.len() ==> #[trigger] shown(items, Filter::All)[k] == (k as usize, items[k]),
    decreases items.len(),
{
    if items.len() > 0 {
        lemma_shown_all(items.drop_last());
    }
}

/// The `Active` filter shows no completed item, the `Completed` filter no
/// open one, and the `All` filter the whole list in its order.
pub proof fn lemma_filter_correct(items: Seq<TodoItem>, filter: Filter)
    requires
        items.len() <= usize::MAX,
    ensures
        filter == Filter::Active ==> forall|k: int|
            0 <= k < shown(items, filter).len() ==> !(#[trigger] shown(items, filter)[k]).1.completed,
        filter == Filter::Completed ==> forall|k: int|
            0 <= k < shown(items, filter).len() ==> (#[trigger] shown(items, filter)[k]).1.completed,
        filter == Filter::All ==> shown(items, filter).len() == items.len() && forall|k: int|
            0 <= k < items.len() ==> #[trigger] shown(items, filter)[k] == (k as usize, items[k]),
{
    lemma_shown_entries(items, filter);
    lemma_shown_all(items);
}

} // verus!
