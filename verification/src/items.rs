//! Vectors seen through the deep views of their items.

use vstd::prelude::*;
use vstd::string::StringExecFns;

verus! {

/// A vector with nothing in it.
pub fn no_items<T: DeepView>() -> (items: Vec<T>)
    ensures
        items.deep_view() == Seq::<T::V>::empty(),
{
    let items = Vec::new();
    assert(items.deep_view() =~= Seq::<T::V>::empty());
    items
}

/// Appends `item` to `items`.
pub fn push_item<T: DeepView>(items: &mut Vec<T>, item: T)
    ensures
        final(items).deep_view() == old(items).deep_view().push(item.deep_view()),
{
    items.push(item);
    assert(items.deep_view() =~= old(items).deep_view().push(item.deep_view()));
}

/// Appends `more` to `items`.
pub fn append_items<T: DeepView>(items: &mut Vec<T>, more: Vec<T>)
    ensures
        final(items).deep_view() == old(items).deep_view() + more.deep_view(),
{
    let mut more = more;
    let ghost before = items.deep_view();
    let ghost added = more.deep_view();
    items.append(&mut more);
    assert(items.deep_view() =~= before + added);
}

/// The views of the first `n` of `items` are the first `n` views, and the
/// view of the item at `n` comes after them.
pub proof fn lemma_next_item<T: DeepView>(items: &Vec<T>, n: int)
    requires
        0 <= n < items.len(),
    ensures
        items.deep_view().len() == items.len(),
        items.deep_view().take(n + 1).drop_last() == items.deep_view().take(n),
        items.deep_view().take(n + 1).last() == items[n].deep_view(),
        items.deep_view().take(n + 1) == items.deep_view().take(n).push(items[n].deep_view()),
{
    let all = items.deep_view();
    assert(all.take(n + 1).drop_last() =~= all.take(n));
    assert(all.take(n + 1) =~= all.take(n).push(items[n].deep_view()));
}

/// All the items were seen.
pub proof fn lemma_all_items<T: DeepView>(items: &Vec<T>)
    ensures
        items.deep_view().len() == items.len(),
        items.deep_view().take(items.len() as int) == items.deep_view(),
{
    assert(items.deep_view().take(items.len() as int) =~= items.deep_view());
}

} // verus!
