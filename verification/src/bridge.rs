//! The event bridge: a bounded queue of raw event codes plus a single-slot
//! waker cell, connecting an interrupt-context producer to one asynchronous
//! consumer. Instantiated once for keyboard scancodes.
//!
//! The consumer's poll is deliberately split into two observable steps,
//! `first_check` and `register_and_recheck`, mirroring the two halves of the
//! lock-free protocol. The recheck after registering the waker is
//! load-bearing: it catches an event that a producer enqueued between the
//! first empty check and the registration, which otherwise would sit in the
//! queue with nobody registered to be woken — a lost wake-up.

use vstd::prelude::*;

use crate::queue::{
    queue_bound, queue_capacity, queue_elems, queue_len, queue_new, queue_pop, queue_push,
};
use crate::task_id::TaskId;
use crate::waker::WakeHandle;
use crossbeam_queue::ArrayQueue;

verus! {

/// The mathematical state of a bridge: its queued event codes (oldest
/// first), the capacity of the event queue, the identity bound to the
/// registered wake handle if one is registered, and whether a consumer has
/// claimed the bridge.
pub struct BridgeView {
    pub events: Seq<u64>,
    pub bound: nat,
    pub waker: Option<TaskId>,
    pub claimed: bool,
}

/// Well-formedness of a bridge state: the event queue never exceeds its
/// capacity, and the capacity is positive.
pub open spec fn bridge_inv(b: BridgeView) -> bool {
    &&& 1 <= b.bound
    &&& b.events.len() <= b.bound
}

/// The identity bound to an optional wake handle.
pub open spec fn waker_view(w: Option<WakeHandle>) -> Option<TaskId> {
    match w {
        Some(h) => Some(h.id()),
        None => None,
    }
}

/// One producer-side step: if the queue has room, the event is appended and
/// the registered waker (if any) is taken to be invoked; if the queue is
/// full, the newest event is dropped and nothing else changes.
pub open spec fn spec_push(b: BridgeView, e: u64) -> (BridgeView, PushEffect) {
    if b.events.len() < b.bound {
        (
            BridgeView { events: b.events.push(e), waker: None, ..b },
            PushEffect { stored: true, woken: b.waker },
        )
    } else {
        (b, PushEffect { stored: false, woken: None })
    }
}

/// The consumer's first check: pop the oldest event if one is queued.
pub open spec fn spec_try_pop(b: BridgeView) -> (BridgeView, Option<u64>) {
    if b.events.len() > 0 {
        (
            BridgeView { events: b.events.subrange(1, b.events.len() as int), ..b },
            Some(b.events[0]),
        )
    } else {
        (b, None)
    }
}

/// Registering a waker overwrites whatever the single slot held.
pub open spec fn spec_register(b: BridgeView, w: Option<TaskId>) -> BridgeView {
    BridgeView { waker: w, ..b }
}

/// The recheck after registration: pop again; on success the registration
/// is cleared before returning, since no wake is needed any more.
pub open spec fn spec_recheck(b: BridgeView) -> (BridgeView, Option<u64>) {
    let (b1, r) = spec_try_pop(b);
    if r is Some {
        (BridgeView { waker: None, ..b1 }, r)
    } else {
        (b1, r)
    }
}

/// A whole consumer poll: fast path, then register and recheck.
pub open spec fn spec_poll(b: BridgeView, w: Option<TaskId>) -> (BridgeView, Option<u64>) {
    let (b1, r) = spec_try_pop(b);
    if r is Some {
        (b1, r)
    } else {
        spec_recheck(spec_register(b1, w))
    }
}

/// What a producer-side push did: whether the event was stored, and the
/// identity of the waker that was taken and must now be invoked.
pub struct PushEffect {
    pub stored: bool,
    pub woken: Option<TaskId>,
}

/// The executable outcome of a push: the event was stored and the returned
/// handle (if any) must be woken, or the event was dropped because the
/// queue was at capacity — a non-fatal condition the caller may log.
pub enum PushOutcome {
    Stored(Option<WakeHandle>),
    Dropped,
}

impl PushOutcome {
    /// The effect this outcome reports, at the spec level.
    pub open spec fn effect(&self) -> PushEffect {
        match self {
            PushOutcome::Stored(w) => PushEffect { stored: true, woken: waker_view(*w) },
            PushOutcome::Dropped => PushEffect { stored: false, woken: None },
        }
    }
}

/// One event bridge instance: the bounded lock-free event queue shared with
/// interrupt context, the single-slot waker cell, and the claim flag that
/// keeps the bridge to one consumer.
pub struct EventBridge {
    events: ArrayQueue<u64>,
    waker: Option<WakeHandle>,
    claimed: bool,
}

impl View for EventBridge {
    type V = BridgeView;

    closed spec fn view(&self) -> BridgeView {
        BridgeView {
            events: queue_elems(self.events),
            bound: queue_bound(self.events),
            waker: waker_view(self.waker),
            claimed: self.claimed,
        }
    }
}

impl EventBridge {
    /// Creates a bridge with an empty event queue of the given capacity, no
    /// registered waker and no consumer yet.
    pub fn new(capacity: usize) -> (b: EventBridge)
        requires
            0 < capacity,
            (capacity as int) < 0x8000_0000_0000_0000,
        ensures
            b@ == (BridgeView {
                events: Seq::<u64>::empty(),
                bound: capacity as nat,
                waker: None,
                claimed: false,
            }),
            bridge_inv(b@),
    {
        EventBridge { events: queue_new(capacity), waker: None, claimed: false }
    }

    /// Producer side; callable from interrupt context, never blocks. Tries
    /// to enqueue `event`; on success the registered waker is taken and
    /// returned so the caller invokes it; on a full queue the event is
    /// dropped and the registration is left in place.
    pub fn push(&mut self, event: u64) -> (r: PushOutcome)
        ensures
            final(self)@ == spec_push(old(self)@, event).0,
            r.effect() == spec_push(old(self)@, event).1,
            bridge_inv(old(self)@) ==> bridge_inv(final(self)@),
    {
        let len = queue_len(&self.events);
        let cap = queue_capacity(&self.events);
        if len < cap {
            let _stored = queue_push(&mut self.events, event);
            let woken = self.waker;
            self.waker = None;
            PushOutcome::Stored(woken)
        } else {
            PushOutcome::Dropped
        }
    }

    /// The number of event codes currently queued.
    pub fn event_count(&self) -> (n: usize)
        ensures
            n == self@.events.len(),
    {
        queue_len(&self.events)
    }

    /// The capacity the event queue was created with.
    pub fn capacity(&self) -> (n: usize)
        ensures
            n == self@.bound,
    {
        queue_capacity(&self.events)
    }

    /// Whether a waker is currently registered.
    pub fn has_waker(&self) -> (r: bool)
        ensures
            r == (self@.waker is Some),
    {
        self.waker.is_some()
    }

    /// Whether a consumer has already claimed this bridge.
    pub fn is_claimed(&self) -> (r: bool)
        ensures
            r == self@.claimed,
    {
        self.claimed
    }
}

/// Producer side of the keyboard instance: the interrupt handler hands the
/// raw scancode here. On a full queue the scancode is dropped — a missed
/// keystroke is acceptable, a missed wake is not — and the caller may emit
/// a diagnostic.
pub fn add_scancode(bridge: &mut EventBridge, scancode: u8) -> (r: PushOutcome)
    ensures
        final(bridge)@ == spec_push(old(bridge)@, scancode as u64).0,
        r.effect() == spec_push(old(bridge)@, scancode as u64).1,
        bridge_inv(old(bridge)@) ==> bridge_inv(final(bridge)@),
{
    bridge.push(scancode as u64)
}

/// The consumer's capability for one bridge. Construction is one-shot per
/// bridge: the claim flag records that a consumer exists, and a second
/// claim is excluded, since two consumers would race on the single-slot
/// waker cell.
pub struct ScancodeStream {
    _private: (),
}

impl ScancodeStream {
    /// Claims the consumer side of `bridge`. A second claim on the same
    /// bridge is a fatal error; it is excluded here by precondition, and
    /// the unverified boundary must check the claim flag before calling.
    pub fn new(bridge: &mut EventBridge) -> (s: ScancodeStream)
        requires
            !old(bridge)@.claimed,
        ensures
            final(bridge)@ == (BridgeView { claimed: true, ..old(bridge)@ }),
    {
        bridge.claimed = true;
        ScancodeStream { _private: () }
    }

    /// The consumer's fast path: pop an event if one is already queued.
    pub fn first_check(&self, bridge: &mut EventBridge) -> (r: Option<u64>)
        ensures
            final(bridge)@ == spec_try_pop(old(bridge)@).0,
            r == spec_try_pop(old(bridge)@).1,
    {
        queue_pop(&mut bridge.events)
    }

    /// The consumer's slow path: register `waker` in the single slot
    /// (overwriting any previous registration), then pop again. An event
    /// that a producer enqueued between the consumer's first check and the
    /// registration is caught here, and the registration is cleared before
    /// returning it. If the queue is still empty the registration stays, so
    /// a later push will wake the consumer.
    pub fn register_and_recheck(&self, bridge: &mut EventBridge, waker: Option<WakeHandle>) -> (r:
        Option<u64>)
        ensures
            final(bridge)@ == spec_recheck(spec_register(old(bridge)@, waker_view(waker))).0,
            r == spec_recheck(spec_register(old(bridge)@, waker_view(waker))).1,
    {
        bridge.waker = waker;
        let popped = queue_pop(&mut bridge.events);
        if popped.is_some() {
            bridge.waker = None;
        }
        popped
    }

    /// One whole consumer poll: return a queued event immediately, or
    /// register `waker` and recheck; only if the recheck still finds
    /// nothing does the consumer stay pending, with the registration in
    /// place.
    pub fn poll_next(&self, bridge: &mut EventBridge, waker: Option<WakeHandle>) -> (r: Option<
        u64,
    >)
        ensures
            final(bridge)@ == spec_poll(old(bridge)@, waker_view(waker)).0,
            r == spec_poll(old(bridge)@, waker_view(waker)).1,
    {
        let fast = self.first_check(bridge);
        if fast.is_some() {
            fast
        } else {
            self.register_and_recheck(bridge, waker)
        }
    }
}

/// Saturation policy: a push against a bridge already at capacity drops
/// the newest event and leaves the queue, the registration and the claim
/// exactly as they were; no error reaches the caller and nobody is woken.
pub proof fn lemma_push_saturation(b: BridgeView, e: u64)
    requires
        b.events.len() >= b.bound,
    ensures
        ({
            let (b2, eff) = spec_push(b, e);
            &&& b2 == b
            &&& !eff.stored
            &&& eff.woken is None
        }),
{
}

/// The other side of the saturation policy: with room in the queue, a push
/// stores the event at the tail, keeps every older event, and takes the
/// registered waker to be invoked.
pub proof fn lemma_push_stores_when_room(b: BridgeView, e: u64)
    requires
        b.events.len() < b.bound,
    ensures
        ({
            let (b2, eff) = spec_push(b, e);
            &&& b2.events == b.events.push(e)
            &&& b2.events.len() == b.events.len() + 1
            &&& b2.waker is None
            &&& b2.claimed == b.claimed
            &&& eff.stored
            &&& eff.woken == b.waker
        }),
{
}

/// No lost wake-up: when a producer's push lands between the consumer's
/// first empty check and its waker registration — the only window in which
/// the push finds no registration to wake — the consumer's recheck still
/// observes the event, and clears the registration it no longer needs.
pub proof fn lemma_no_lost_wakeup(b0: BridgeView, e: u64, w: TaskId)
    requires
        bridge_inv(b0),
        b0.events.len() == 0,
    ensures
        ({
            let (b1, first) = spec_try_pop(b0);
            let (b2, eff) = spec_push(b1, e);
            let b3 = spec_register(b2, Some(w));
            let (b4, got) = spec_recheck(b3);
            &&& first is None
            &&& eff.stored
            &&& eff.woken == b0.waker
            &&& got == Some(e)
            &&& b4.waker is None
            &&& b4.events.len() == 0
        }),
{
}

/// The complementary window: when the consumer's whole poll runs first and
/// returns pending, its registration is in place, so a later push takes
/// that registration and reports the consumer's identity to be woken.
pub proof fn lemma_wake_after_pending(b0: BridgeView, e: u64, w: TaskId)
    requires
        bridge_inv(b0),
        b0.events.len() == 0,
    ensures
        ({
            let (b1, polled) = spec_poll(b0, Some(w));
            let (b2, eff) = spec_push(b1, e);
            &&& polled is None
            &&& b1.waker == Some(w)
            &&& eff.stored
            &&& eff.woken == Some(w)
            &&& b2.events.len() == 1
            &&& b2.events[0] == e
            &&& b2.waker is None
        }),
{
}

} // verus!
