//! A minimal busy-polling executor, kept for study beside the optimized
//! scheduler core.
//!
//! It holds its tasks in a plain FIFO and re-polls every suspended task on
//! each round, with a context that carries no wake handle — the
//! counterpart of a no-op waker. That makes it a busy loop: it only
//! terminates when every spawned computation is self-contained, that is,
//! completes after finitely many polls without waiting for an outside
//! event, and that condition is its precondition here.

use vstd::prelude::*;

use crate::bridge::EventBridge;
use crate::task::{comp_fuel, self_contained, spec_advance, CompView, Step, Task};
use std::collections::VecDeque;

verus! {

/// The total number of polls a queue of self-contained computations still
/// needs before all of them complete.
pub open spec fn fuel_sum(s: Seq<CompView>) -> nat
    decreases s.len(),
{
    if s.len() == 0 {
        0
    } else {
        comp_fuel(s[0]) + fuel_sum(s.subrange(1, s.len() as int))
    }
}

/// Appending a computation adds its fuel to the total.
proof fn lemma_fuel_sum_push(s: Seq<CompView>, c: CompView)
    ensures
        fuel_sum(s.push(c)) == fuel_sum(s) + comp_fuel(c),
    decreases s.len(),
{
    if s.len() == 0 {
        assert(s.push(c)[0] == c);
        assert(s.push(c).subrange(1, s.push(c).len() as int) =~= Seq::<CompView>::empty());
        assert(fuel_sum(s.push(c)) == comp_fuel(c) + fuel_sum(Seq::<CompView>::empty()));
        assert(fuel_sum(Seq::<CompView>::empty()) == 0);
        assert(fuel_sum(s) == 0);
    } else {
        let tail = s.subrange(1, s.len() as int);
        assert(s.push(c)[0] == s[0]);
        assert(s.push(c).subrange(1, s.push(c).len() as int) =~= tail.push(c));
        lemma_fuel_sum_push(tail, c);
        assert(fuel_sum(s.push(c)) == comp_fuel(s[0]) + fuel_sum(tail.push(c)));
        assert(fuel_sum(s) == comp_fuel(s[0]) + fuel_sum(tail));
    }
}

/// Every computation in the queue is self-contained.
pub open spec fn all_self_contained(s: Seq<CompView>) -> bool {
    forall|i: int| 0 <= i < s.len() ==> self_contained(#[trigger] s[i])
}

/// The minimal executor: a FIFO of whole tasks, re-polled round-robin.
pub struct SimpleExecutor {
    task_queue: VecDeque<Task>,
}

impl SimpleExecutor {
    /// The computations queued, in polling order.
    pub closed spec fn comps(&self) -> Seq<CompView> {
        self.task_queue@.map_values(|t: Task| t.comp())
    }

    /// An executor with an empty task queue.
    pub fn new() -> (e: SimpleExecutor)
        ensures
            e.comps() == Seq::<CompView>::empty(),
    {
        let e = SimpleExecutor { task_queue: VecDeque::new() };
        proof {
            assert(e.comps() =~= Seq::<CompView>::empty());
        }
        e
    }

    /// Adds a task to the back of the queue.
    pub fn spawn(&mut self, task: Task)
        ensures
            final(self).comps() == old(self).comps().push(task.comp()),
    {
        let ghost before = self.task_queue@;
        self.task_queue.push_back(task);
        proof {
            assert(self.comps() =~= before.map_values(|t: Task| t.comp()).push(task.comp()));
        }
    }

    /// The number of tasks still queued.
    pub fn task_count(&self) -> (n: usize)
        ensures
            n == self.comps().len(),
    {
        self.task_queue.len()
    }

    /// Polls tasks in order until all have completed: a completed task is
    /// dropped, a suspended one is re-queued at the back and polled again
    /// on the next round. Self-contained computations never touch the
    /// bridge, so it is left exactly as it was.
    pub fn run(&mut self, bridge: &mut EventBridge)
        requires
            all_self_contained(old(self).comps()),
        ensures
            final(self).comps() == Seq::<CompView>::empty(),
            final(bridge)@ == old(bridge)@,
    {
        let ghost b0 = bridge@;
        loop
            invariant
                all_self_contained(self.comps()),
                bridge@ == b0,
            ensures
                self.comps().len() == 0,
                bridge@ == b0,
            decreases fuel_sum(self.comps()),
        {
            let ghost q_pre = self.comps();
            let task = match self.task_queue.pop_front() {
                Some(t) => t,
                None => { break; },
            };
            proof {
                assert(self.comps() =~= q_pre.subrange(1, q_pre.len() as int));
                assert(self_contained(q_pre[0]));
            }
            let (task, step) = task.advance(bridge, None);
            proof {
                let ar = spec_advance(q_pre[0], b0, None);
                assert(ar.bridge == b0);
            }
            match step {
                Step::Ready => {
                },
                Step::Pending => {
                    let ghost mid = self.comps();
                    self.task_queue.push_back(task);
                    proof {
                        assert(self.comps() =~= mid.push(task.comp()));
                        lemma_fuel_sum_push(mid, task.comp());
                        assert forall|i: int| 0 <= i < self.comps().len() implies self_contained(
                            #[trigger] self.comps()[i],
                        ) by {
                            if i < mid.len() {
                                assert(self.comps()[i] == mid[i]);
                            }
                        }
                    }
                },
            }
        }
        proof {
            assert(self.comps() =~= Seq::<CompView>::empty());
        }
    }
}

} // verus!
