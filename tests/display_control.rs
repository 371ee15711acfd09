use kvm_link::control::{ControlAction, DisplaySwitch, CLIENT_INPUT, SERVER_INPUT};

#[test]
fn active_machine_bounces_the_request() {
    let h = DisplaySwitch::new(CLIENT_INPUT);
    let a = h.on_change_display(true);
    assert_eq!(a, ControlAction::NotifyPeer);
    assert_eq!(h.peer_bytes(&a), vec![1u8, 1]);
}

#[test]
fn inactive_machine_switches_to_itself() {
    let h = DisplaySwitch::new(SERVER_INPUT);
    let a = h.on_change_display(false);
    assert_eq!(a, ControlAction::SetInput { code: 0x60, value: 0x12 });
    assert!(h.peer_bytes(&a).is_empty());
}
