use kernel_tasks::bridge::{add_scancode, EventBridge, PushOutcome, ScancodeStream};
use kernel_tasks::task_id::TaskId;
use kernel_tasks::waker::WakeHandle;

#[test]
fn events_come_out_in_fifo_order() {
    let mut bridge = EventBridge::new(8);
    let stream = ScancodeStream::new(&mut bridge);
    assert!(matches!(add_scancode(&mut bridge, 10), PushOutcome::Stored(None)));
    assert!(matches!(add_scancode(&mut bridge, 20), PushOutcome::Stored(None)));
    assert!(matches!(add_scancode(&mut bridge, 30), PushOutcome::Stored(None)));
    assert_eq!(stream.poll_next(&mut bridge, None), Some(10));
    assert_eq!(stream.poll_next(&mut bridge, None), Some(20));
    assert_eq!(stream.poll_next(&mut bridge, None), Some(30));
    assert_eq!(stream.poll_next(&mut bridge, None), None);
}

#[test]
fn saturated_bridge_drops_newest_and_stays_at_capacity() {
    let mut bridge = EventBridge::new(3);
    let stream = ScancodeStream::new(&mut bridge);
    assert!(matches!(add_scancode(&mut bridge, 1), PushOutcome::Stored(None)));
    assert!(matches!(add_scancode(&mut bridge, 2), PushOutcome::Stored(None)));
    assert!(matches!(add_scancode(&mut bridge, 3), PushOutcome::Stored(None)));
    // The queue is at capacity: the newest event is dropped, no error
    // reaches the caller, and the queue still holds exactly its capacity.
    assert!(matches!(add_scancode(&mut bridge, 4), PushOutcome::Dropped));
    assert_eq!(bridge.event_count(), 3);
    assert_eq!(bridge.capacity(), 3);
    // The three older events survived, in order; the dropped one is gone.
    assert_eq!(stream.poll_next(&mut bridge, None), Some(1));
    assert_eq!(stream.poll_next(&mut bridge, None), Some(2));
    assert_eq!(stream.poll_next(&mut bridge, None), Some(3));
    assert_eq!(stream.poll_next(&mut bridge, None), None);
}

#[test]
fn push_between_first_check_and_registration_is_still_observed() {
    // The lost wake-up window, injected explicitly: the producer's push
    // lands after the consumer found the queue empty but before the
    // consumer registered its waker.
    let mut bridge = EventBridge::new(4);
    let stream = ScancodeStream::new(&mut bridge);
    let handle = WakeHandle::new(TaskId(7));

    // Consumer, step one: the queue looks empty.
    assert_eq!(stream.first_check(&mut bridge), None);

    // Producer lands here. No waker is registered yet, so nobody is woken:
    // exactly the interleaving that loses the event without a recheck.
    match add_scancode(&mut bridge, 42) {
        PushOutcome::Stored(woken) => assert!(woken.is_none()),
        PushOutcome::Dropped => panic!("event dropped with room in the queue"),
    }

    // Consumer, step two: register and recheck. The recheck catches the
    // event, and the now-useless registration is cleared.
    assert_eq!(stream.register_and_recheck(&mut bridge, Some(handle)), Some(42));
    assert!(!bridge.has_waker());
    assert_eq!(bridge.event_count(), 0);
}

#[test]
fn push_after_pending_wakes_the_registered_consumer() {
    // The other side of the race: the consumer's whole poll runs first and
    // stays pending; the producer's push must then find the registration
    // and report the consumer's identity to wake.
    let mut bridge = EventBridge::new(4);
    let stream = ScancodeStream::new(&mut bridge);
    let handle = WakeHandle::new(TaskId(9));

    assert_eq!(stream.poll_next(&mut bridge, Some(handle)), None);
    assert!(bridge.has_waker());

    match add_scancode(&mut bridge, 17) {
        PushOutcome::Stored(woken) => {
            let woken = woken.expect("the registered waker must be taken");
            assert_eq!(woken.task_id(), TaskId(9));
        },
        PushOutcome::Dropped => panic!("event dropped with room in the queue"),
    }
    // The waker slot was drained by the push; the event waits in the queue.
    assert!(!bridge.has_waker());
    assert_eq!(bridge.event_count(), 1);
    assert_eq!(stream.poll_next(&mut bridge, Some(handle)), Some(17));
}

#[test]
fn registration_overwrites_previous_registration() {
    let mut bridge = EventBridge::new(4);
    let stream = ScancodeStream::new(&mut bridge);
    assert_eq!(stream.poll_next(&mut bridge, Some(WakeHandle::new(TaskId(1)))), None);
    assert_eq!(stream.poll_next(&mut bridge, Some(WakeHandle::new(TaskId(2)))), None);
    match add_scancode(&mut bridge, 5) {
        PushOutcome::Stored(woken) => {
            assert_eq!(woken.expect("waker registered").task_id(), TaskId(2));
        },
        PushOutcome::Dropped => panic!("event dropped with room in the queue"),
    }
}

#[test]
fn bridge_claim_is_recorded() {
    let mut bridge = EventBridge::new(4);
    assert!(!bridge.is_claimed());
    let _stream = ScancodeStream::new(&mut bridge);
    assert!(bridge.is_claimed());
}
