//! Suspendable computations and the tasks that carry them.
//!
//! A computation exposes one capability: `advance`, which runs it until it
//! either completes (`Ready`) or suspends (`Pending`). The context of an
//! advance is the wake handle the computation may leave behind — here, by
//! registering it in an event bridge — so that a later event re-enqueues
//! the task.

use vstd::prelude::*;

use crate::bridge::{spec_register, BridgeView, EventBridge, ScancodeStream, waker_view};
use crate::task_id::{counter_after, IdGenerator, TaskId};
use crate::waker::WakeHandle;

verus! {

/// The outcome of one advance: the computation completed, or it suspended
/// and expects a future wake.
#[derive(Clone, Copy, Debug, PartialEq, Eq, Structural)]
pub enum Step {
    Ready,
    Pending,
}

/// The mathematical state of a computation.
pub enum CompView {
    Immediate,
    Countdown { remaining: u64 },
    EventReader { remaining: u64, seen: Seq<u64> },
}

/// What one advance does: the computation's next state, the bridge's next
/// state, and whether the computation completed.
pub struct AdvanceResult {
    pub comp: CompView,
    pub bridge: BridgeView,
    pub ready: bool,
}

/// The event-reader semantics: consume queued events until the budget is
/// exhausted (then complete) or the queue runs dry (then register the wake
/// handle and suspend).
pub open spec fn spec_read(
    remaining: u64,
    seen: Seq<u64>,
    b: BridgeView,
    w: Option<TaskId>,
) -> AdvanceResult
    decreases b.events.len(),
{
    if remaining == 0 {
        AdvanceResult { comp: CompView::EventReader { remaining, seen }, bridge: b, ready: true }
    } else if b.events.len() > 0 {
        spec_read(
            (remaining - 1) as u64,
            seen.push(b.events[0]),
            BridgeView { events: b.events.subrange(1, b.events.len() as int), ..b },
            w,
        )
    } else {
        AdvanceResult {
            comp: CompView::EventReader { remaining, seen },
            bridge: spec_register(b, w),
            ready: false,
        }
    }
}

/// What advancing a computation in state `c` does to it and to the bridge,
/// when the context carries the wake handle `w`.
pub open spec fn spec_advance(c: CompView, b: BridgeView, w: Option<TaskId>) -> AdvanceResult {
    match c {
        CompView::Immediate => AdvanceResult { comp: c, bridge: b, ready: true },
        CompView::Countdown { remaining } => {
            if remaining == 0 {
                AdvanceResult { comp: c, bridge: b, ready: true }
            } else {
                AdvanceResult {
                    comp: CompView::Countdown { remaining: (remaining - 1) as u64 },
                    bridge: b,
                    ready: false,
                }
            }
        },
        CompView::EventReader { remaining, seen } => spec_read(remaining, seen, b, w),
    }
}

/// A computation that never touches the event bridge, and therefore
/// completes under any executor, without ever being woken.
pub open spec fn self_contained(c: CompView) -> bool {
    c is Immediate || c is Countdown
}

/// The number of advances a self-contained computation needs to complete.
pub open spec fn comp_fuel(c: CompView) -> nat {
    match c {
        CompView::Immediate => 1,
        CompView::Countdown { remaining } => remaining as nat + 1,
        CompView::EventReader { .. } => 0,
    }
}

/// A suspendable unit of work. `Immediate` completes on its first advance;
/// `Countdown` suspends the given number of times before completing (and
/// relies on being re-polled, as the busy executor does); `EventReader`
/// wraps the consumer side of an event bridge and completes after reading
/// its budget of events.
pub enum Computation {
    Immediate,
    Countdown { remaining: u64 },
    EventReader { stream: ScancodeStream, remaining: u64, seen: Vec<u64> },
}

impl View for Computation {
    type V = CompView;

    open spec fn view(&self) -> CompView {
        match self {
            Computation::Immediate => CompView::Immediate,
            Computation::Countdown { remaining } => CompView::Countdown { remaining: *remaining },
            Computation::EventReader { stream, remaining, seen } => CompView::EventReader {
                remaining: *remaining,
                seen: seen@,
            },
        }
    }
}

impl Computation {
    /// Runs the computation until it completes or suspends. Consumes the
    /// state and returns the successor state, because a completed
    /// computation must never be advanced again.
    #[verifier::loop_isolation(false)]
    pub fn advance(self, bridge: &mut EventBridge, waker: Option<WakeHandle>) -> (r: (
        Computation,
        Step,
    ))
        ensures
            ({
                let ar = spec_advance(self@, old(bridge)@, waker_view(waker));
                &&& r.0@ == ar.comp
                &&& final(bridge)@ == ar.bridge
                &&& (r.1 is Ready) == ar.ready
            }),
    {
        match self {
            Computation::Immediate => (Computation::Immediate, Step::Ready),
            Computation::Countdown { remaining } => {
                if remaining == 0 {
                    (Computation::Countdown { remaining }, Step::Ready)
                } else {
                    (Computation::Countdown { remaining: remaining - 1 }, Step::Pending)
                }
            },
            Computation::EventReader { stream, remaining, seen } => {
                let mut remaining = remaining;
                let mut seen = seen;
                loop
                    invariant
                        spec_read(remaining, seen@, bridge@, waker_view(waker)) == spec_advance(
                            self@,
                            old(bridge)@,
                            waker_view(waker),
                        ),
                    decreases bridge@.events.len(),
                {
                    if remaining == 0 {
                        return (
                            Computation::EventReader { stream, remaining, seen },
                            Step::Ready,
                        );
                    }
                    match stream.poll_next(bridge, waker) {
                        Some(event) => {
                            seen.push(event);
                            remaining = remaining - 1;
                        },
                        None => {
                            return (
                                Computation::EventReader { stream, remaining, seen },
                                Step::Pending,
                            );
                        },
                    }
                }
            },
        }
    }
}

impl Computation {
    /// The events an event reader has observed so far; nothing for the
    /// other computations.
    pub fn seen_events(&self) -> (r: Option<&Vec<u64>>)
        ensures
            match self@ {
                CompView::EventReader { remaining, seen } => r matches Some(v) && v@ == seen,
                _ => r is None,
            },
    {
        match self {
            Computation::EventReader { seen, .. } => Some(seen),
            _ => None,
        }
    }
}

/// A task: one suspendable computation together with the identity it was
/// assigned at creation.
pub struct Task {
    id: TaskId,
    computation: Computation,
}

impl Task {
    /// The assigned identity.
    pub closed spec fn spec_id(&self) -> TaskId {
        self.id
    }

    /// The state of the wrapped computation.
    pub closed spec fn comp(&self) -> CompView {
        self.computation@
    }

    /// Wraps a computation into a task under a fresh identity drawn from
    /// the generator.
    pub fn new(ids: &mut IdGenerator, computation: Computation) -> (t: Task)
        ensures
            t.spec_id().0 == old(ids).counter(),
            final(ids).counter() == counter_after(old(ids).counter()),
            t.comp() == computation@,
    {
        Task { id: ids.next(), computation }
    }

    /// The assigned identity, as an executable value.
    pub fn id(&self) -> (id: TaskId)
        ensures
            id == self.spec_id(),
    {
        self.id
    }

    /// The events the wrapped computation has observed so far, when it is
    /// an event reader.
    pub fn seen_events(&self) -> (r: Option<&Vec<u64>>)
        ensures
            match self.comp() {
                CompView::EventReader { remaining, seen } => r matches Some(v) && v@ == seen,
                _ => r is None,
            },
    {
        self.computation.seen_events()
    }

    /// Advances the task's computation once. Consumes the task and returns
    /// its successor, so a completed task cannot be advanced again.
    pub fn advance(self, bridge: &mut EventBridge, waker: Option<WakeHandle>) -> (r: (Task, Step))
        ensures
            ({
                let ar = spec_advance(self.comp(), old(bridge)@, waker_view(waker));
                &&& r.0.spec_id() == self.spec_id()
                &&& r.0.comp() == ar.comp
                &&& final(bridge)@ == ar.bridge
                &&& (r.1 is Ready) == ar.ready
            }),
    {
        let Task { id, computation } = self;
        let (computation, step) = computation.advance(bridge, waker);
        (Task { id, computation }, step)
    }
}

} // verus!
