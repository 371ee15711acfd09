use kvm_link::codes::{ElementState, HidEvent, KeyCode, ScanCode};
use kvm_link::forwarder::{InputOutbox, InputReceiver};
use kvm_link::link::{ConnectionManager, LinkAction, LinkEvent, LinkState};
use kvm_link::wire::ChannelMessage;

#[test]
fn backoff_doubles_up_to_the_cap() {
    let mut m = ConnectionManager::new();
    assert_eq!(m.step(LinkEvent::Start), LinkAction::Connect { delay_ms: 0 });
    let mut delays = Vec::new();
    for _ in 0..9 {
        match m.step(LinkEvent::ConnectFailed) {
            LinkAction::Connect { delay_ms } => delays.push(delay_ms),
            other => panic!("unexpected {:?}", other),
        }
    }
    assert_eq!(delays, vec![100, 200, 400, 800, 1600, 3200, 5000, 5000, 5000]);
    assert_eq!(m.step(LinkEvent::ConnectSucceeded), LinkAction::StartHandlers { generation: 1 });
    assert_eq!(m.delay_ms, 0);
}

#[test]
fn stale_reports_change_nothing() {
    let mut m = ConnectionManager::new();
    m.step(LinkEvent::Start);
    m.step(LinkEvent::ConnectSucceeded);
    assert_eq!(m.step(LinkEvent::HandlerFailed(0)), LinkAction::Wait);
    assert_eq!(m.state, LinkState::Connected);
    assert_eq!(m.step(LinkEvent::ConnectSucceeded), LinkAction::Wait);
}

#[test]
fn reconnect_delivers_the_rest_once() {
    let events: Vec<HidEvent> = (0..5)
        .map(|i| {
            let code = [KeyCode::KeyA, KeyCode::KeyB, KeyCode::KeyC, KeyCode::KeyD, KeyCode::KeyE][i];
            HidEvent::Key(ScanCode::new(code, ElementState::Pressed))
        })
        .collect();
    let mut outbox = InputOutbox::new();
    for e in &events {
        outbox.enqueue(*e);
    }
    let mut m = ConnectionManager::new();
    m.step(LinkEvent::Start);
    assert_eq!(m.step(LinkEvent::ConnectSucceeded), LinkAction::StartHandlers { generation: 1 });

    let mut peer = InputReceiver::new();
    let mut delivered: Vec<HidEvent> = Vec::new();
    let mut deliver = |bytes: &[u8], delivered: &mut Vec<HidEvent>| {
        let (msgs, err) = peer.take_bytes(bytes);
        assert_eq!(err, None);
        for msg in msgs {
            match msg {
                ChannelMessage::Hid(e) => delivered.push(e),
                ChannelMessage::ChangeDisplay => panic!("no control message was sent"),
            }
        }
    };
    for _ in 0..2 {
        let f = outbox.next_frame().unwrap();
        deliver(&f, &mut delivered);
        assert!(outbox.confirm_sent().is_some());
    }
    // The third write fails: the link is gone.
    assert!(outbox.next_frame().is_some());
    assert_eq!(m.step(LinkEvent::HandlerFailed(1)), LinkAction::StopHandlers { generation: 1 });
    assert_eq!(m.state, LinkState::Disconnected);
    assert_eq!(m.step(LinkEvent::HandlersStopped(1)), LinkAction::Connect { delay_ms: 0 });
    assert_eq!(m.state, LinkState::Connecting);
    assert_eq!(m.step(LinkEvent::ConnectSucceeded), LinkAction::StartHandlers { generation: 2 });
    assert_eq!(outbox.len(), 3);
    while let Some(f) = outbox.next_frame() {
        deliver(&f, &mut delivered);
        outbox.confirm_sent();
    }
    assert_eq!(delivered, events);
}
