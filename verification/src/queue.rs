//! Trusted view of the bounded lock-free queue that carries task identities
//! and raw event codes.
//!
//! Both shared queues of the scheduler — the ready queue and each event
//! bridge's event queue — are `crossbeam_queue::ArrayQueue<u64>`: a bounded
//! FIFO whose push never blocks, which is what makes it safe to call from an
//! interrupt handler. Verus sees the queue through the two names below and
//! the wrapper functions, whose contracts state what the crate's source
//! shows for exclusive access.

use vstd::prelude::*;

use crossbeam_queue::ArrayQueue;

verus! {

#[verifier::external_type_specification]
#[verifier::external_body]
#[verifier::reject_recursive_types(T)]
pub struct ExArrayQueue<T>(ArrayQueue<T>);

/// The elements a queue holds, oldest first.
pub uninterp spec fn queue_elems(q: ArrayQueue<u64>) -> Seq<u64>;

/// The fixed capacity a queue was created with.
pub uninterp spec fn queue_bound(q: ArrayQueue<u64>) -> nat;

/// Relies on `crossbeam_queue::ArrayQueue::new`: allocates an empty queue of
/// fixed capacity `cap`. It panics when `cap` is zero or leaves no room for
/// the internal lap stamp, so those capacities are excluded here.
#[verifier::external_body]
pub(crate) fn queue_new(cap: usize) -> (q: ArrayQueue<u64>)
    requires
        0 < cap,
        (cap as int) < 0x8000_0000_0000_0000,
    ensures
        queue_elems(q) == Seq::<u64>::empty(),
        queue_bound(q) == cap,
{
    ArrayQueue::new(cap)
}

/// Relies on `crossbeam_queue::ArrayQueue::push`: enqueues at the tail and
/// succeeds exactly when the queue is not full.
#[verifier::external_body]
pub(crate) fn queue_push(q: &mut ArrayQueue<u64>, v: u64) -> (ok: bool)
    ensures
        queue_bound(*final(q)) == queue_bound(*old(q)),
        queue_elems(*old(q)).len() < queue_bound(*old(q)) ==> ok && queue_elems(*final(q))
            == queue_elems(*old(q)).push(v),
        queue_elems(*old(q)).len() >= queue_bound(*old(q)) ==> !ok && queue_elems(*final(q))
            == queue_elems(*old(q)),
{
    q.push(v).is_ok()
}

/// Relies on `crossbeam_queue::ArrayQueue::pop`: dequeues the oldest element,
/// or returns nothing when the queue is empty.
#[verifier::external_body]
pub(crate) fn queue_pop(q: &mut ArrayQueue<u64>) -> (r: Option<u64>)
    ensures
        queue_bound(*final(q)) == queue_bound(*old(q)),
        queue_elems(*old(q)).len() > 0 ==> r == Some(queue_elems(*old(q))[0]) && queue_elems(
            *final(q),
        ) == queue_elems(*old(q)).subrange(1, queue_elems(*old(q)).len() as int),
        queue_elems(*old(q)).len() == 0 ==> r is None && queue_elems(*final(q)) == queue_elems(
            *old(q),
        ),
{
    q.pop()
}

/// Relies on `crossbeam_queue::ArrayQueue::is_empty`: tells whether the
/// queue currently holds no element.
#[verifier::external_body]
pub(crate) fn queue_is_empty(q: &ArrayQueue<u64>) -> (r: bool)
    ensures
        r == (queue_elems(*q).len() == 0),
{
    q.is_empty()
}

/// Relies on `crossbeam_queue::ArrayQueue::len`: the number of elements the
/// queue currently holds.
#[verifier::external_body]
pub(crate) fn queue_len(q: &ArrayQueue<u64>) -> (r: usize)
    ensures
        r == queue_elems(*q).len(),
{
    q.len()
}

/// Relies on `crossbeam_queue::ArrayQueue::capacity`: the fixed capacity the
/// queue was created with.
#[verifier::external_body]
pub(crate) fn queue_capacity(q: &ArrayQueue<u64>) -> (r: usize)
    ensures
        r == queue_bound(*q),
{
    q.capacity()
}

} // verus!
