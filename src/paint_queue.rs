//! Paint order by priority, through an outside priority queue.

use vstd::prelude::*;
use priority_queue::PriorityQueue;
use crate::rectangle::Rectangle;

verus! {

#[verifier::external_type_specification]
#[verifier::external_body]
#[verifier::reject_recursive_types(I)]
#[verifier::reject_recursive_types(P)]
#[verifier::reject_recursive_types(H)]
pub struct ExPriorityQueue<I, P, H>(PriorityQueue<I, P, H>) where
    I: std::hash::Hash + Eq,
    P: Ord,
;

/// Drawing indices keyed by paint priority, the highest first out.
pub type PaintQueue = PriorityQueue<usize, i32>;

/// What a queue of drawings holds: each drawing's index and its priority.
pub uninterp spec fn queued(q: PriorityQueue<usize, i32>) -> Map<usize, i32>;

/// Relies on `PriorityQueue::new`: the queue starts empty.
#[verifier::external_body]
fn queue_new() -> (r: PaintQueue)
    ensures
        queued(r).dom() == Set::<usize>::empty(),
{
    PriorityQueue::new()
}

/// Relies on `PriorityQueue::push`: the item is added with its priority, or,
/// if it was queued already, its priority is replaced and the old one returned.
#[verifier::external_body]
fn queue_push(q: &mut PaintQueue, item: usize, priority: i32) -> (r: Option<i32>)
    ensures
        queued(*final(q)) == queued(*old(q)).insert(item, priority),
        queued(*old(q)).contains_key(item) ==> r == Some(queued(*old(q))[item]),
        !queued(*old(q)).contains_key(item) ==> r.is_none(),
{
    q.push(item, priority)
}

/// Relies on `PriorityQueue::pop`: removes and returns an item of greatest
/// priority with that priority, or `None` when the queue is empty.
#[verifier::external_body]
fn queue_pop(q: &mut PaintQueue) -> (r: Option<(usize, i32)>)
    ensures
        queued(*old(q)).dom() == Set::<usize>::empty() <==> r.is_none(),
        r.is_some() ==> queued(*old(q)).contains_key(r.unwrap().0),
        r.is_some() ==> queued(*old(q))[r.unwrap().0] == r.unwrap().1,
        r.is_some() ==> queued(*final(q)) == queued(*old(q)).remove(r.unwrap().0),
        r.is_some() ==> (forall|k: usize| #[trigger] queued(*old(q)).contains_key(k) ==> queued(*old(q))[k] <= r.unwrap().1),
        r.is_none() ==> queued(*final(q)) == queued(*old(q)),
{
    q.pop()
}

/// The order in which `drawings` are painted: every index once, those of
/// higher paint priority (`z_index`) first.
pub fn paint_order(drawings: &Vec<Rectangle>) -> (r: Vec<usize>)
    ensures
        r@.len() == drawings@.len(),
        forall|i: int| 0 <= i < r@.len() ==> #[trigger] r@[i] < drawings@.len(),
        forall|i: int, j: int| 0 <= i < j < r@.len() ==> r@[i] != r@[j],
        forall|i: int, j: int|
            0 <= i < j < r@.len() ==> drawings@[r@[i] as int].z_index >= drawings@[r@[j] as int].z_index,
{
    let n = drawings.len();
    let mut q = queue_new();
    let mut k: usize = 0;
    while k < n
        invariant
            0 <= k <= n,
            n == drawings@.len(),
            queued(q).dom().finite(),
            queued(q).dom().len() == k,
            forall|x: usize| #[trigger] queued(q).contains_key(x) <==> x < k,
            forall|x: usize| x < k ==> #[trigger] queued(q)[x] == drawings@[x as int].z_index,
        decreases n - k,
    {
        queue_push(&mut q, k, drawings[k].z_index);
        k = k + 1;
    }
    let mut r: Vec<usize> = Vec::new();
    while r.len() < n
        invariant
            n == drawings@.len(),
            r@.len() <= n,
            queued(q).dom().finite(),
            queued(q).dom().len() == n - r@.len(),
            forall|x: usize| #[trigger] queued(q).contains_key(x) ==> x < n,
            forall|x: usize|
                #[trigger] queued(q).contains_key(x) ==> queued(q)[x] == drawings@[x as int].z_index,
            forall|i: int| 0 <= i < r@.len() ==> #[trigger] r@[i] < n,
            forall|i: int| 0 <= i < r@.len() ==> !queued(q).contains_key(#[trigger] r@[i]),
            forall|i: int, j: int| 0 <= i < j < r@.len() ==> r@[i] != r@[j],
            forall|i: int, j: int|
                0 <= i < j < r@.len() ==> drawings@[r@[i] as int].z_index >= drawings@[r@[j] as int].z_index,
            forall|i: int, x: usize|
                0 <= i < r@.len() && queued(q).contains_key(x) ==> #[trigger] drawings@[r@[i] as int].z_index
                    >= #[trigger] drawings@[x as int].z_index,
        decreases n - r@.len(),
    {
        let popped = queue_pop(&mut q);
        let (item, _priority) = popped.unwrap();
        r.push(item);
    }
    r
}

} // verus!
