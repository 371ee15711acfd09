use kvm_link::codes::{ElementState, HidEvent, KeyCode, ScanCode};
use kvm_link::forwarder::{InputOutbox, InputReceiver};
use kvm_link::wire::{ChannelMessage, DecodeError};

#[test]
fn key_events_arrive_in_capture_order() {
    let events = vec![
        HidEvent::Key(ScanCode::new(KeyCode::KeyA, ElementState::Pressed)),
        HidEvent::Key(ScanCode::new(KeyCode::KeyA, ElementState::Released)),
        HidEvent::Key(ScanCode::new(KeyCode::KeyB, ElementState::Pressed)),
    ];
    let mut outbox = InputOutbox::new();
    for e in &events {
        outbox.enqueue(*e);
    }
    let mut stream = Vec::new();
    while let Some(f) = outbox.next_frame() {
        stream.extend(f);
        outbox.confirm_sent();
    }
    let mut receiver = InputReceiver::new();
    let mut injected = Vec::new();
    for b in &stream {
        let (msgs, err) = receiver.take_bytes(&[*b]);
        assert_eq!(err, None);
        for m in msgs {
            if let ChannelMessage::Hid(e) = m {
                injected.push(e);
            }
        }
    }
    assert_eq!(injected, events);
}

#[test]
fn a_bad_payload_stops_the_stream() {
    let mut receiver = InputReceiver::new();
    let (msgs, err) = receiver.take_bytes(&[1, 1, 1, 7, 1, 1]);
    assert_eq!(msgs, vec![ChannelMessage::ChangeDisplay]);
    assert_eq!(err, Some(DecodeError::UnknownTag));
}

#[test]
fn empty_outbox_has_nothing_to_send() {
    let mut outbox = InputOutbox::new();
    assert_eq!(outbox.next_frame(), None);
    assert_eq!(outbox.confirm_sent(), None);
}
