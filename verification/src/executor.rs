//! The scheduler core: the task table, the shared ready queue, the
//! wake-handle cache, and the pass that drives ready tasks.
//!
//! A scheduling pass (`run_ready_tasks`) pops identities from the ready
//! queue until it is empty. An identity with no table entry is a harmless
//! stale duplicate — the wake of a task that has since completed — and is
//! skipped. Every other task is advanced with its cached wake handle; a
//! task that completes is removed from both the table and the cache, and a
//! task that suspends stays, expecting a future wake to re-enqueue it.
//! The whole pass is pinned down by the `spec_drain` recursion, and the
//! completion-termination lemmas below state that a completed task is
//! never advanced again.

use vstd::prelude::*;

use crate::bridge::{add_scancode, spec_push, BridgeView, EventBridge, PushOutcome};
use crate::cpu::{enable_and_halt, interrupts_disable, interrupts_enable};
use crate::queue::{
    queue_bound, queue_capacity, queue_elems, queue_is_empty, queue_len, queue_new, queue_pop,
    queue_push,
};
use crate::task::{spec_advance, CompView, Computation, Step, Task};
use crate::task_id::{counter_after, IdGenerator, TaskId, ID_SPACE};
use crate::waker::WakeHandle;
use std::collections::BTreeMap;

verus! {

broadcast use vstd::std_specs::btree::group_btree_axioms, vstd::laws_cmp::group_laws_cmp;

/// The capacity of the scheduler's ready queue.
pub const READY_QUEUE_CAPACITY: usize = 100;

/// The task table under its mathematical view.
pub open spec fn tasks_view(m: Map<u64, Task>) -> Map<u64, CompView> {
    m.map_values(|t: Task| t.comp())
}

/// The mathematical state of the scheduler: the table of live computations
/// by identity, the set of identities with a cached wake handle, the ready
/// queue's contents and capacity, and the counter the next spawn draws from.
pub struct ExecView {
    pub tasks: Map<u64, CompView>,
    pub wakers: Set<u64>,
    pub ready: Seq<u64>,
    pub ready_bound: nat,
    pub next_id: u64,
}

/// One advance performed during a scheduling pass: which task was polled
/// and whether that poll completed it.
pub struct PollEvent {
    pub id: u64,
    pub completed: bool,
}

/// Everything a scheduling pass leaves behind: the surviving task table,
/// the surviving wake-handle cache, the bridge state, and the ordered log
/// of the advances the pass performed.
pub struct DrainResult {
    pub tasks: Map<u64, CompView>,
    pub wakers: Set<u64>,
    pub bridge: BridgeView,
    pub log: Seq<PollEvent>,
}

/// The effect of a scheduling pass over the ready-queue entries `q`: stale
/// identities are skipped; every live task is advanced with its own wake
/// handle; completion removes task and cached handle, suspension keeps the
/// updated task and caches its handle.
pub open spec fn spec_drain(
    tasks: Map<u64, CompView>,
    wakers: Set<u64>,
    b: BridgeView,
    q: Seq<u64>,
) -> DrainResult
    decreases q.len(),
{
    if q.len() == 0 {
        DrainResult { tasks, wakers, bridge: b, log: Seq::empty() }
    } else {
        let id = q[0];
        let rest = q.subrange(1, q.len() as int);
        if !tasks.contains_key(id) {
            spec_drain(tasks, wakers, b, rest)
        } else {
            let ar = spec_advance(tasks[id], b, Some(TaskId(id)));
            if ar.ready {
                let r = spec_drain(tasks.remove(id), wakers.remove(id), ar.bridge, rest);
                DrainResult {
                    log: seq![PollEvent { id, completed: true }] + r.log,
                    ..r
                }
            } else {
                let r = spec_drain(
                    tasks.insert(id, ar.comp),
                    wakers.insert(id),
                    ar.bridge,
                    rest,
                );
                DrainResult {
                    log: seq![PollEvent { id, completed: false }] + r.log,
                    ..r
                }
            }
        }
    }
}

/// The scheduler core. The task table and the wake-handle cache belong to
/// the scheduling context alone; the ready queue is the one structure
/// shared with wake-handle holders, including interrupt context.
pub struct Executor {
    tasks: BTreeMap<u64, Task>,
    ready: crossbeam_queue::ArrayQueue<u64>,
    waker_cache: BTreeMap<u64, WakeHandle>,
    ids: IdGenerator,
}

impl View for Executor {
    type V = ExecView;

    closed spec fn view(&self) -> ExecView {
        ExecView {
            tasks: tasks_view(self.tasks@),
            wakers: self.waker_cache@.dom(),
            ready: queue_elems(self.ready),
            ready_bound: queue_bound(self.ready),
            next_id: self.ids.counter(),
        }
    }
}

impl Executor {
    /// Well-formedness: every table entry carries the identity it is keyed
    /// under, every cached handle wakes the identity it is cached under and
    /// belongs to a live task, the ready queue respects its capacity, and
    /// every live identity was drawn from the counter.
    pub closed spec fn wf(&self) -> bool {
        &&& forall|id: u64|
            self.tasks@.contains_key(id) ==> #[trigger] self.tasks@[id].spec_id().0 == id
        &&& forall|id: u64|
            self.waker_cache@.contains_key(id) ==> #[trigger] self.waker_cache@[id].id().0 == id
        &&& self.waker_cache@.dom().subset_of(self.tasks@.dom())
        &&& forall|id: u64| #[trigger]
            self.tasks@.contains_key(id) ==> id < self.ids.counter()
        &&& queue_elems(self.ready).len() <= queue_bound(self.ready)
        &&& 1 <= queue_bound(self.ready)
    }

    /// A fresh scheduler: no tasks, no cached handles, an empty ready queue
    /// of the configured capacity, and the identity counter at zero.
    pub fn new() -> (e: Executor)
        ensures
            e.wf(),
            e@.tasks == Map::<u64, CompView>::empty(),
            e@.wakers == Set::<u64>::empty(),
            e@.ready == Seq::<u64>::empty(),
            e@.ready_bound == READY_QUEUE_CAPACITY,
            e@.next_id == 0,
    {
        let e = Executor {
            tasks: BTreeMap::new(),
            ready: queue_new(READY_QUEUE_CAPACITY),
            waker_cache: BTreeMap::new(),
            ids: IdGenerator::new(),
        };
        proof {
            assert(tasks_view(e.tasks@) =~= Map::<u64, CompView>::empty());
        }
        e
    }

    /// Wraps `computation` in a task under a fresh identity, registers it
    /// in the table — the freshness invariant rules the fatal identity
    /// collision out — and enqueues it. A full ready queue here is fatal,
    /// and exhaustion of the identity space is treated as unreachable; both
    /// are excluded by precondition.
    pub fn spawn(&mut self, computation: Computation) -> (id: TaskId)
        requires
            old(self).wf(),
            old(self)@.ready.len() < old(self)@.ready_bound,
            old(self)@.next_id < ID_SPACE,
        ensures
            final(self).wf(),
            id.0 == old(self)@.next_id,
            !old(self)@.tasks.contains_key(id.0),
            final(self)@.tasks == old(self)@.tasks.insert(id.0, computation@),
            final(self)@.wakers == old(self)@.wakers,
            final(self)@.ready == old(self)@.ready.push(id.0),
            final(self)@.ready_bound == old(self)@.ready_bound,
            final(self)@.next_id == counter_after(old(self)@.next_id),
    {
        let ghost tasks0 = self.tasks@;
        let task = Task::new(&mut self.ids, computation);
        let id = task.id();
        let _prior = self.tasks.insert(id.0, task);
        let _ok = queue_push(&mut self.ready, id.0);
        proof {
            assert(tasks_view(self.tasks@) =~= tasks_view(tasks0).insert(id.0, computation@));
        }
        id
    }

    /// Re-enqueues the identity bound to `handle`. Saturation of the ready
    /// queue on a wake is fatal — a lost wake stalls a task forever — so a
    /// full queue is excluded by precondition; the unverified boundary must
    /// check before calling and treat failure as unrecoverable.
    pub fn wake(&mut self, handle: WakeHandle)
        requires
            old(self).wf(),
            old(self)@.ready.len() < old(self)@.ready_bound,
        ensures
            final(self).wf(),
            final(self)@ == (ExecView { ready: old(self)@.ready.push(handle.id().0), ..old(self)@ }),
    {
        handle.wake(&mut self.ready);
    }

    /// One scheduling pass: pops identities until the ready queue is empty
    /// and advances each live task with its cached wake handle, creating
    /// the handle on first use. The pass leaves exactly the state that
    /// `spec_drain` assigns to it, with the ready queue drained, and the
    /// advances it performed are exactly `spec_drain`'s log, returned here
    /// as a ghost value so that the completion-termination lemmas below
    /// speak about what this pass did.
    pub fn run_ready_tasks(&mut self, bridge: &mut EventBridge) -> (log: Ghost<Seq<PollEvent>>)
        requires
            old(self).wf(),
        ensures
            final(self).wf(),
            ({
                let d = spec_drain(
                    old(self)@.tasks,
                    old(self)@.wakers,
                    old(bridge)@,
                    old(self)@.ready,
                );
                &&& final(self)@.tasks == d.tasks
                &&& final(self)@.wakers == d.wakers
                &&& final(bridge)@ == d.bridge
                &&& log@ == d.log
            }),
            final(self)@.ready == Seq::<u64>::empty(),
            final(self)@.ready_bound == old(self)@.ready_bound,
            final(self)@.next_id == old(self)@.next_id,
    {
        let ghost t0 = self@.tasks;
        let ghost w0 = self@.wakers;
        let ghost b0 = bridge@;
        let ghost q0 = self@.ready;
        let ghost bound0 = self@.ready_bound;
        let ghost nid0 = self@.next_id;
        let ghost mut acc: Seq<PollEvent> = Seq::empty();
        loop
            invariant
                self.wf(),
                queue_bound(self.ready) == bound0,
                self.ids.counter() == nid0,
                ({
                    let d0 = spec_drain(t0, w0, b0, q0);
                    let dc = spec_drain(self@.tasks, self@.wakers, bridge@, self@.ready);
                    &&& d0.tasks == dc.tasks
                    &&& d0.wakers == dc.wakers
                    &&& d0.bridge == dc.bridge
                    &&& d0.log == acc + dc.log
                }),
            ensures
                queue_elems(self.ready).len() == 0,
            decreases queue_elems(self.ready).len(),
        {
            let ghost t_pre = tasks_view(self.tasks@);
            let ghost w_pre = self.waker_cache@.dom();
            let ghost b_pre = bridge@;
            let ghost q_pre = queue_elems(self.ready);
            let popped = queue_pop(&mut self.ready);
            let id: u64 = match popped {
                Some(id) => id,
                None => { break; },
            };
            let removed = self.tasks.remove(&id);
            match removed {
                None => {
                    proof {
                        assert(!t_pre.contains_key(id));
                        assert(tasks_view(self.tasks@) =~= t_pre);
                    }
                },
                Some(task) => {
                    proof {
                        assert(t_pre.contains_key(id));
                        assert(t_pre[id] == task.comp());
                        assert(tasks_view(self.tasks@) =~= t_pre.remove(id));
                    }
                    let handle: WakeHandle = match self.waker_cache.get(&id) {
                        Some(h) => {
                            proof {
                                assert(self.waker_cache@[id].id().0 == id);
                            }
                            *h
                        },
                        None => {
                            let h = WakeHandle::new(TaskId(id));
                            self.waker_cache.insert(id, h);
                            h
                        },
                    };
                    proof {
                        assert(handle.id() == TaskId(id));
                        assert(self.waker_cache@.dom() =~= w_pre.insert(id));
                    }
                    let (task, step) = task.advance(bridge, Some(handle));
                    match step {
                        Step::Ready => {
                            self.waker_cache.remove(&id);
                            proof {
                                assert(self.waker_cache@.dom() =~= w_pre.remove(id));
                                let dnext = spec_drain(
                                    tasks_view(self.tasks@),
                                    self.waker_cache@.dom(),
                                    bridge@,
                                    queue_elems(self.ready),
                                );
                                let ev = PollEvent { id, completed: true };
                                let acc_pre = acc;
                                acc = acc.push(ev);
                                assert(acc_pre + (seq![ev] + dnext.log) =~= acc + dnext.log);
                            }
                        },
                        Step::Pending => {
                            self.tasks.insert(id, task);
                            proof {
                                let ar = spec_advance(t_pre[id], b_pre, Some(TaskId(id)));
                                assert(tasks_view(self.tasks@) =~= t_pre.insert(id, ar.comp));
                                assert(self.waker_cache@.dom() =~= w_pre.insert(id));
                                let dnext = spec_drain(
                                    tasks_view(self.tasks@),
                                    self.waker_cache@.dom(),
                                    bridge@,
                                    queue_elems(self.ready),
                                );
                                let ev = PollEvent { id, completed: false };
                                let acc_pre = acc;
                                acc = acc.push(ev);
                                assert(acc_pre + (seq![ev] + dnext.log) =~= acc + dnext.log);
                            }
                        },
                    }
                },
            }
        }
        proof {
            assert(queue_elems(self.ready) =~= Seq::<u64>::empty());
            assert(acc + Seq::<PollEvent>::empty() =~= acc);
        }
        Ghost(acc)
    }

    /// The idle protocol: when the ready queue looks empty, mask
    /// interrupts, re-check — closing the race with a wake that arrived
    /// after the first observation — and only halt, atomically re-enabling
    /// interrupts, when the queue is still empty at the re-check. A wake
    /// observed at either check means the processor is not halted and the
    /// scheduler proceeds to the next pass. Returns whether it halted.
    pub fn sleep_if_idle(&self) -> (halted: bool)
        ensures
            halted == (self@.ready.len() == 0),
    {
        if queue_is_empty(&self.ready) {
            interrupts_disable();
            if queue_is_empty(&self.ready) {
                enable_and_halt();
                true
            } else {
                interrupts_enable();
                false
            }
        } else {
            false
        }
    }

    /// The number of tasks currently registered.
    pub fn task_count(&self) -> (n: usize)
        ensures
            n == self@.tasks.dom().len(),
    {
        proof {
            assert(self@.tasks.dom() =~= self.tasks@.dom());
        }
        self.tasks.len()
    }

    /// Whether the task with the given identity is still registered.
    pub fn contains_task(&self, id: TaskId) -> (r: bool)
        ensures
            r == self@.tasks.contains_key(id.0),
    {
        self.tasks.contains_key(&id.0)
    }

    /// The number of identities waiting in the ready queue.
    pub fn ready_len(&self) -> (n: usize)
        ensures
            n == self@.ready.len(),
    {
        queue_len(&self.ready)
    }

    /// The capacity of the ready queue.
    pub fn ready_capacity(&self) -> (n: usize)
        ensures
            n == self@.ready_bound,
    {
        queue_capacity(&self.ready)
    }

    /// The events the registered event-reader task with the given identity
    /// has observed so far; nothing when the identity is unknown or its
    /// computation is of another kind.
    pub fn events_seen(&self, id: TaskId) -> (r: Option<&Vec<u64>>)
        ensures
            ({
                if self@.tasks.contains_key(id.0) {
                    match self@.tasks[id.0] {
                        CompView::EventReader { remaining, seen } => r matches Some(v) && v@
                            == seen,
                        _ => r is None,
                    }
                } else {
                    r is None
                }
            }),
    {
        match self.tasks.get(&id.0) {
            Some(task) => {
                proof {
                    assert(tasks_view(self.tasks@)[id.0] == task.comp());
                }
                task.seen_events()
            },
            None => None,
        }
    }
}

/// The whole interrupt-side path for one keyboard scancode: push it into
/// the bridge; when the push stored it and found a registered waker, wake
/// that task on the scheduler's ready queue. A dropped scancode is
/// best-effort and reported to the caller, who may log it.
pub fn deliver_scancode(exec: &mut Executor, bridge: &mut EventBridge, scancode: u8) -> (stored:
    bool)
    requires
        old(exec).wf(),
        old(exec)@.ready.len() < old(exec)@.ready_bound,
    ensures
        final(exec).wf(),
        final(bridge)@ == spec_push(old(bridge)@, scancode as u64).0,
        stored == spec_push(old(bridge)@, scancode as u64).1.stored,
        ({
            let eff = spec_push(old(bridge)@, scancode as u64).1;
            match eff.woken {
                Some(tid) => final(exec)@ == (ExecView {
                    ready: old(exec)@.ready.push(tid.0),
                    ..old(exec)@
                }),
                None => final(exec)@ == old(exec)@,
            }
        }),
{
    match add_scancode(bridge, scancode) {
        PushOutcome::Stored(woken) => {
            match woken {
                Some(h) => exec.wake(h),
                None => (),
            }
            true
        },
        PushOutcome::Dropped => false,
    }
}

/// A task absent from the table is never advanced by a scheduling pass,
/// and stays absent, however many stale entries of its identity remain in
/// the ready queue: a duplicate wake of a completed task is a no-op.
pub proof fn lemma_absent_never_polled(
    tasks: Map<u64, CompView>,
    wakers: Set<u64>,
    b: BridgeView,
    q: Seq<u64>,
    id: u64,
)
    requires
        !tasks.contains_key(id),
    ensures
        ({
            let d = spec_drain(tasks, wakers, b, q);
            &&& !d.tasks.contains_key(id)
            &&& forall|k: int| 0 <= k < d.log.len() ==> d.log[k].id != id
        }),
    decreases q.len(),
{
    if q.len() == 0 {
    } else {
        let head = q[0];
        let rest = q.subrange(1, q.len() as int);
        let d = spec_drain(tasks, wakers, b, q);
        if !tasks.contains_key(head) {
            lemma_absent_never_polled(tasks, wakers, b, rest, id);
        } else {
            let ar = spec_advance(tasks[head], b, Some(TaskId(head)));
            if ar.ready {
                let sub = spec_drain(tasks.remove(head), wakers.remove(head), ar.bridge, rest);
                lemma_absent_never_polled(
                    tasks.remove(head),
                    wakers.remove(head),
                    ar.bridge,
                    rest,
                    id,
                );
                assert forall|k: int| 0 <= k < d.log.len() implies d.log[k].id != id by {
                    if k > 0 {
                        assert(d.log[k] == sub.log[k - 1]);
                    }
                }
            } else {
                let sub = spec_drain(tasks.insert(head, ar.comp), wakers.insert(head), ar.bridge, rest);
                lemma_absent_never_polled(
                    tasks.insert(head, ar.comp),
                    wakers.insert(head),
                    ar.bridge,
                    rest,
                    id,
                );
                assert forall|k: int| 0 <= k < d.log.len() implies d.log[k].id != id by {
                    if k > 0 {
                        assert(d.log[k] == sub.log[k - 1]);
                    }
                }
            }
        }
    }
}

/// Completion termination: once an advance during a scheduling pass
/// completes a task, that pass never advances the task again, and the task
/// is absent from the table the pass leaves behind.
pub proof fn lemma_completed_never_polled_again(
    tasks: Map<u64, CompView>,
    wakers: Set<u64>,
    b: BridgeView,
    q: Seq<u64>,
    i: int,
)
    requires
        ({
            let d = spec_drain(tasks, wakers, b, q);
            &&& 0 <= i < d.log.len()
            &&& d.log[i].completed
        }),
    ensures
        ({
            let d = spec_drain(tasks, wakers, b, q);
            &&& forall|j: int| i < j < d.log.len() ==> d.log[j].id != d.log[i].id
            &&& !d.tasks.contains_key(d.log[i].id)
        }),
    decreases q.len(),
{
    let d = spec_drain(tasks, wakers, b, q);
    let head = q[0];
    let rest = q.subrange(1, q.len() as int);
    if !tasks.contains_key(head) {
        lemma_completed_never_polled_again(tasks, wakers, b, rest, i);
    } else {
        let ar = spec_advance(tasks[head], b, Some(TaskId(head)));
        if ar.ready {
            let sub = spec_drain(tasks.remove(head), wakers.remove(head), ar.bridge, rest);
            if i == 0 {
                lemma_absent_never_polled(
                    tasks.remove(head),
                    wakers.remove(head),
                    ar.bridge,
                    rest,
                    head,
                );
                assert forall|j: int| i < j < d.log.len() implies d.log[j].id != d.log[i].id by {
                    assert(d.log[j] == sub.log[j - 1]);
                }
            } else {
                assert(sub.log[i - 1] == d.log[i]);
                lemma_completed_never_polled_again(
                    tasks.remove(head),
                    wakers.remove(head),
                    ar.bridge,
                    rest,
                    i - 1,
                );
                assert forall|j: int| i < j < d.log.len() implies d.log[j].id != d.log[i].id by {
                    assert(d.log[j] == sub.log[j - 1]);
                }
            }
        } else {
            let sub = spec_drain(tasks.insert(head, ar.comp), wakers.insert(head), ar.bridge, rest);
            if i == 0 {
                assert(!d.log[0].completed);
                assert(false);
            }
            assert(sub.log[i - 1] == d.log[i]);
            lemma_completed_never_polled_again(
                tasks.insert(head, ar.comp),
                wakers.insert(head),
                ar.bridge,
                rest,
                i - 1,
            );
            assert forall|j: int| i < j < d.log.len() implies d.log[j].id != d.log[i].id by {
                assert(d.log[j] == sub.log[j - 1]);
            }
        }
    }
}

} // verus!
