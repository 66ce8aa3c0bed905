use kernel_core::keyboard::AddOutcome;
use kernel_core::keyboard::InputChannel;
use kernel_core::keyboard::PollByte;
use kernel_core::keyboard::ScancodeStream;
use kernel_core::keyboard::SCANCODE_QUEUE_CAPACITY;

#[test]
fn uninitialized_delivery_is_reported_noop() {
    let mut channel = InputChannel::new();
    assert_eq!(channel.add_scancode(0x1E), AddOutcome::Uninitialized);
}

#[test]
fn stream_initializes_exactly_once() {
    let mut channel = InputChannel::new();
    assert!(ScancodeStream::try_new(&mut channel).is_some());
    assert!(ScancodeStream::try_new(&mut channel).is_none());
}

#[test]
fn poll_returns_queued_bytes_in_order() {
    let mut channel = InputChannel::new();
    let stream = ScancodeStream::try_new(&mut channel).unwrap();
    assert_eq!(channel.add_scancode(0x1E), AddOutcome::Queued { wake: None });
    assert_eq!(channel.add_scancode(0x9E), AddOutcome::Queued { wake: None });
    assert_eq!(stream.poll_next(&mut channel, 3), PollByte::Ready(0x1E));
    assert_eq!(stream.poll_next(&mut channel, 3), PollByte::Ready(0x9E));
    assert_eq!(stream.poll_next(&mut channel, 3), PollByte::Pending);
    // The pending poll registered task 3; the next delivery hands it out.
    assert_eq!(channel.add_scancode(0x2A), AddOutcome::Queued { wake: Some(3) });
}

#[test]
fn push_between_check_and_register_is_still_observed() {
    let mut channel = InputChannel::new();
    let stream = ScancodeStream::try_new(&mut channel).unwrap();
    // First poll step: nothing there yet, no waiter registered.
    assert_eq!(stream.poll_check(&mut channel), None);
    // The interrupt fires inside the race window: its wake hits no one.
    assert_eq!(channel.add_scancode(0x42), AddOutcome::Queued { wake: None });
    // The post-registration re-check observes the byte anyway.
    assert_eq!(stream.poll_register_recheck(&mut channel, 3), PollByte::Ready(0x42));
    // And no stale waiter was left behind.
    assert_eq!(channel.add_scancode(0x43), AddOutcome::Queued { wake: None });
}

#[test]
fn full_queue_drops_and_keeps_earlier_bytes() {
    let mut channel = InputChannel::new();
    let stream = ScancodeStream::try_new(&mut channel).unwrap();
    for i in 0..SCANCODE_QUEUE_CAPACITY {
        assert_eq!(channel.add_scancode(i as u8), AddOutcome::Queued { wake: None });
    }
    assert_eq!(channel.add_scancode(0xFF), AddOutcome::Dropped);
    for i in 0..SCANCODE_QUEUE_CAPACITY {
        assert_eq!(stream.poll_next(&mut channel, 1), PollByte::Ready(i as u8));
    }
    assert_eq!(stream.poll_next(&mut channel, 1), PollByte::Pending);
}
