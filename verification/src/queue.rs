//! The keyed max-priority queue that holds the build backlog and the enemy
//! sightings.
//!
//! The queue itself is `priority_queue::PriorityQueue`, with a pair of
//! integers as key and an integer as priority. Its code is not verified here:
//! each function below states what the queue's documentation and source
//! promise of one of its methods, and the rest of the library is proved from
//! these statements.

use priority_queue::PriorityQueue;
use vstd::prelude::*;

verus! {

#[verifier::external_type_specification]
#[verifier::external_body]
#[verifier::reject_recursive_types(I)]
#[verifier::reject_recursive_types(P)]
#[verifier::reject_recursive_types(H)]
pub struct ExPriorityQueue<I, P, H>(PriorityQueue<I, P, H>);

/// The entries of a queue: the priority held for each key that is present.
pub uninterp spec fn entries(q: PriorityQueue<(u64, u64), i64>) -> Map<(u64, u64), i64>;

/// Whether `key` is an entry of `m` and no entry of `m` has a greater
/// priority.
pub open spec fn is_top(m: Map<(u64, u64), i64>, key: (u64, u64)) -> bool {
    &&& m.dom().contains(key)
    &&& forall|other: (u64, u64)| #[trigger] m.dom().contains(other) ==> m[other] <= m[key]
}

/// `PriorityQueue::new`: a queue without entries.
#[verifier::external_body]
pub(crate) fn new_queue() -> (q: PriorityQueue<(u64, u64), i64>)
    ensures
        entries(q).dom() == Set::<(u64, u64)>::empty(),
{
    PriorityQueue::new()
}

/// `PriorityQueue::len`: the number of entries.
#[verifier::external_body]
pub(crate) fn queue_len(q: &PriorityQueue<(u64, u64), i64>) -> (n: usize)
    ensures
        n == entries(*q).dom().len(),
{
    q.len()
}

/// `PriorityQueue::push`: sets the priority of `key`, inserting the key if it
/// is absent, and returns the priority that it had before.
#[verifier::external_body]
pub(crate) fn push(q: &mut PriorityQueue<(u64, u64), i64>, key: (u64, u64), priority: i64) -> (previous: Option<i64>)
    ensures
        entries(*final(q)) == entries(*old(q)).insert(key, priority),
        previous == if entries(*old(q)).dom().contains(key) {
            Some(entries(*old(q))[key])
        } else {
            None
        },
{
    q.push(key, priority)
}

/// `PriorityQueue::change_priority`: sets the priority of `key` where the key
/// is present and returns the priority that it had before; does nothing and
/// returns `None` where it is absent.
#[verifier::external_body]
pub(crate) fn change_priority(q: &mut PriorityQueue<(u64, u64), i64>, key: (u64, u64), priority: i64) -> (previous:
    Option<i64>)
    ensures
        entries(*final(q)) == if entries(*old(q)).dom().contains(key) {
            entries(*old(q)).insert(key, priority)
        } else {
            entries(*old(q))
        },
        previous == if entries(*old(q)).dom().contains(key) {
            Some(entries(*old(q))[key])
        } else {
            None
        },
{
    q.change_priority(&key, priority)
}

/// `PriorityQueue::get_priority`: the priority of `key`, or `None` where the
/// key is absent.
#[verifier::external_body]
pub(crate) fn get_priority(q: &PriorityQueue<(u64, u64), i64>, key: (u64, u64)) -> (priority: Option<i64>)
    ensures
        priority == if entries(*q).dom().contains(key) {
            Some(entries(*q)[key])
        } else {
            None
        },
{
    q.get_priority(&key).copied()
}

/// `PriorityQueue::remove`: takes the entry of `key` out and returns it, or
/// does nothing and returns `None` where the key is absent.
#[verifier::external_body]
pub(crate) fn remove(q: &mut PriorityQueue<(u64, u64), i64>, key: (u64, u64)) -> (removed: Option<
    ((u64, u64), i64),
>)
    ensures
        entries(*final(q)) == entries(*old(q)).remove(key),
        removed == if entries(*old(q)).dom().contains(key) {
            Some((key, entries(*old(q))[key]))
        } else {
            None
        },
{
    q.remove(&key)
}

/// `PriorityQueue::peek`: an entry with the greatest priority, or `None`
/// where the queue is empty. Which of several entries with the greatest
/// priority is shown is left open.
#[verifier::external_body]
pub(crate) fn peek(q: &PriorityQueue<(u64, u64), i64>) -> (top: Option<((u64, u64), i64)>)
    ensures
        match top {
            Some((key, priority)) => is_top(entries(*q), key) && entries(*q)[key] == priority,
            None => entries(*q).dom() == Set::<(u64, u64)>::empty(),
        },
{
    q.peek().map(|(key, priority)| (*key, *priority))
}

/// `PriorityQueue::pop`: takes an entry with the greatest priority out and
/// returns it, or does nothing and returns `None` where the queue is empty.
/// Which of several entries with the greatest priority leaves is left open.
#[verifier::external_body]
pub(crate) fn pop(q: &mut PriorityQueue<(u64, u64), i64>) -> (top: Option<((u64, u64), i64)>)
    ensures
        match top {
            Some((key, priority)) => {
                &&& is_top(entries(*old(q)), key)
                &&& entries(*old(q))[key] == priority
                &&& entries(*final(q)) == entries(*old(q)).remove(key)
            },
            None => {
                &&& entries(*old(q)).dom() == Set::<(u64, u64)>::empty()
                &&& entries(*final(q)) == entries(*old(q))
            },
        },
{
    q.pop()
}

} // verus!
