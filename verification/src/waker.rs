//! Wake handles: the callback that re-enqueues a task on the ready queue.

use vstd::prelude::*;

use crate::queue::{queue_bound, queue_elems, queue_push};
use crate::task_id::TaskId;
use crossbeam_queue::ArrayQueue;

verus! {

/// A small immutable value bound at creation to one task identity; invoking
/// it pushes that identity onto a ready queue. Callable from any context,
/// including interrupt context, because the push never blocks.
#[derive(Clone, Copy, Debug)]
pub struct WakeHandle {
    task: TaskId,
}

impl WakeHandle {
    /// The identity this handle re-enqueues.
    pub closed spec fn id(&self) -> TaskId {
        self.task
    }

    /// Binds a handle to one task identity.
    pub fn new(task: TaskId) -> (h: WakeHandle)
        ensures
            h.id() == task,
    {
        WakeHandle { task }
    }

    /// The identity this handle re-enqueues, as an executable value.
    pub fn task_id(&self) -> (id: TaskId)
        ensures
            id == self.id(),
    {
        self.task
    }

    /// Pushes the bound identity onto `ready`. Saturation of the scheduler's
    /// ready queue is a fatal condition — losing a wake would stall a task
    /// forever — so a full queue is excluded by precondition and the caller
    /// at the unverified boundary must treat it as unrecoverable.
    pub(crate) fn wake(&self, ready: &mut ArrayQueue<u64>)
        requires
            queue_elems(*old(ready)).len() < queue_bound(*old(ready)),
        ensures
            queue_bound(*final(ready)) == queue_bound(*old(ready)),
            queue_elems(*final(ready)) == queue_elems(*old(ready)).push(self.id().0),
    {
        let _ok = queue_push(ready, self.task.0);
    }
}

} // verus!
