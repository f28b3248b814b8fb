//! Declarations of the two outside collections the post feed is built on,
//! with the contracts their sources give the methods the feed calls.

use vstd::prelude::*;
use indexmap::IndexSet;
use priority_queue::DoublePriorityQueue;

verus! {

#[verifier::external_type_specification]
#[verifier::external_body]
#[verifier::reject_recursive_types(T)]
#[verifier::reject_recursive_types(S)]
pub struct ExIndexSet<T, S>(IndexSet<T, S>);

#[verifier::external_type_specification]
#[verifier::external_body]
#[verifier::reject_recursive_types(I)]
#[verifier::reject_recursive_types(P)]
#[verifier::reject_recursive_types(H)]
pub struct ExDoublePriorityQueue<I, P, H>(DoublePriorityQueue<I, P, H>);

/// A queue of post keys, each with the priority the feed gave it.
pub type Backlog = DoublePriorityQueue<u64, (usize, usize)>;

/// The items of an insertion-ordered post set, oldest first.
pub uninterp spec fn post_set_items(set: IndexSet<u64>) -> Seq<u64>;

/// The items of a post backlog, each with its priority.
pub uninterp spec fn backlog_items(q: Backlog) -> Map<u64, (usize, usize)>;

/// The order `Ord` gives pairs: by the first component, then by the second.
pub open spec fn priority_le(a: (usize, usize), b: (usize, usize)) -> bool {
    a.0 < b.0 || (a.0 == b.0 && a.1 <= b.1)
}

/// `IndexSet::new`: an empty set.
#[verifier::external_body]
pub(crate) fn post_set_new() -> (set: IndexSet<u64>)
    ensures
        post_set_items(set) == Seq::<u64>::empty(),
{
    IndexSet::new()
}

/// `IndexSet::len`: the number of items.
#[verifier::external_body]
pub(crate) fn post_set_len(set: &IndexSet<u64>) -> (n: usize)
    ensures
        n == post_set_items(*set).len(),
{
    set.len()
}

/// `IndexSet::insert`: appends the item unless an equal one is present, in
/// which case the set is left as it was; says whether it appended.
#[verifier::external_body]
pub(crate) fn post_set_insert(set: &mut IndexSet<u64>, item: u64) -> (added: bool)
    ensures
        added == !post_set_items(*old(set)).contains(item),
        added ==> post_set_items(*final(set)) == post_set_items(*old(set)).push(item),
        !added ==> post_set_items(*final(set)) == post_set_items(*old(set)),
{
    set.insert(item)
}

/// `IndexSet::get_index`: the item at a position, if the position is in range.
#[verifier::external_body]
pub(crate) fn post_set_get_index(set: &IndexSet<u64>, index: usize) -> (item: Option<u64>)
    ensures
        index < post_set_items(*set).len() ==> item == Some(post_set_items(*set)[index as int]),
        index >= post_set_items(*set).len() ==> item is None,
{
    set.get_index(index).copied()
}

/// `IndexSet::drain` over `0..count`: removes the first `count` items and
/// shifts the rest down; it panics when `count` exceeds the length.
#[verifier::external_body]
pub(crate) fn post_set_drain_front(set: &mut IndexSet<u64>, count: usize)
    requires
        count <= post_set_items(*old(set)).len(),
    ensures
        post_set_items(*final(set)) == post_set_items(*old(set)).subrange(
            count as int,
            post_set_items(*old(set)).len() as int,
        ),
{
    set.drain(0..count);
}

/// `DoublePriorityQueue::new`: an empty queue.
#[verifier::external_body]
pub(crate) fn backlog_new() -> (q: Backlog)
    ensures
        backlog_items(q).dom().is_empty(),
{
    DoublePriorityQueue::new()
}

/// `DoublePriorityQueue::len`: the number of items.
#[verifier::external_body]
pub(crate) fn backlog_len(q: &Backlog) -> (n: usize)
    ensures
        n == backlog_items(*q).dom().len(),
{
    q.len()
}

/// `DoublePriorityQueue::push`: sets the item's priority, adding the item if
/// absent; hands back the priority it replaced, if any.
#[verifier::external_body]
pub(crate) fn backlog_push(
    q: &mut Backlog,
    item: u64,
    priority: (usize, usize),
) -> (replaced: Option<(usize, usize)>)
    ensures
        backlog_items(*final(q)) == backlog_items(*old(q)).insert(item, priority),
        backlog_items(*old(q)).contains_key(item) ==> replaced == Some(
            backlog_items(*old(q))[item],
        ),
        !backlog_items(*old(q)).contains_key(item) ==> replaced is None,
{
    q.push(item, priority)
}

/// `DoublePriorityQueue::pop_max`: removes and hands back an item of greatest
/// priority, or nothing when the queue is empty. Which of several items with
/// equal greatest priority leaves is not stated.
#[verifier::external_body]
pub(crate) fn backlog_pop_max(q: &mut Backlog) -> (popped: Option<(u64, (usize, usize))>)
    ensures
        popped is None <==> backlog_items(*old(q)).dom().is_empty(),
        popped is None ==> backlog_items(*final(q)) == backlog_items(*old(q)),
        popped matches Some((item, priority)) ==> {
            &&& backlog_items(*old(q)).contains_key(item)
            &&& backlog_items(*old(q))[item] == priority
            &&& backlog_items(*final(q)) == backlog_items(*old(q)).remove(item)
            &&& forall|k: u64| #[trigger] backlog_items(*old(q)).contains_key(k) ==>
                    priority_le(backlog_items(*old(q))[k], priority)
        },
{
    q.pop_max()
}

} // verus!
