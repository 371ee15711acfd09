use kvm_link::codes::{ElementState, HidEvent, KeyCode, MouseButton, MouseButtons, ScanCode};
use kvm_link::emulator::{hid_report, WinputAction, WinputEmulator};

#[test]
fn hid_reports() {
    let k = HidEvent::Key(ScanCode::new(KeyCode::KeyB, ElementState::Pressed));
    assert_eq!(hid_report(&k), Some(vec![0u8, 0, 0x05, 1]));
    let media = HidEvent::Key(ScanCode::new(KeyCode::MediaStop, ElementState::Pressed));
    assert_eq!(hid_report(&media), None);
    assert_eq!(hid_report(&HidEvent::MouseDelta(-1, 300)), Some(vec![0u8, 1, 0xFF, 0x2C]));
    let b = HidEvent::MouseButton(MouseButtons::new(MouseButton::Right, ElementState::Released));
    assert_eq!(hid_report(&b), Some(vec![0u8, 2, 2, 0]));
    assert_eq!(hid_report(&HidEvent::MouseScroll(3)), Some(vec![0u8, 3, 3]));
}

#[test]
fn winput_actions() {
    let emu = WinputEmulator::new();
    let k = HidEvent::Key(ScanCode::new(KeyCode::KeyM, ElementState::Released));
    assert_eq!(emu.action(&k), Some(WinputAction::ReleaseKey(0x4D)));
    let f = HidEvent::Key(ScanCode::new(KeyCode::F5, ElementState::Pressed));
    assert_eq!(emu.action(&f), Some(WinputAction::PressKey(0x74)));
    let c = HidEvent::Key(ScanCode::new(KeyCode::ControlRight, ElementState::Released));
    assert_eq!(emu.action(&c), Some(WinputAction::ReleaseKey(0x11)));
    let s = HidEvent::Key(ScanCode::new(KeyCode::SuperRight, ElementState::Pressed));
    assert_eq!(emu.action(&s), None);
    let b = HidEvent::MouseButton(MouseButtons::new(MouseButton::Back, ElementState::Pressed));
    assert_eq!(emu.action(&b), Some(WinputAction::PressButton(MouseButton::Back)));
    assert_eq!(emu.action(&HidEvent::MouseScroll(-1)), Some(WinputAction::Scroll(-1)));
    assert_eq!(emu.action(&HidEvent::MouseDelta(4, 5)), Some(WinputAction::MoveRelative(4, 5)));
}

#[test]
fn wake_packet_layout() {
    let mac = [1u8, 2, 3, 4, 5, 6];
    let p = kvm_link::wake::wake_packet(mac);
    assert_eq!(p.len(), 102);
    assert_eq!(&p[..6], &[0xFFu8; 6]);
    for i in 0..16 {
        assert_eq!(&p[6 + 6 * i..12 + 6 * i], &mac);
    }
}

#[test]
fn process_winput_matches_the_emulator() {
    let e = HidEvent::Key(ScanCode::new(KeyCode::Digit7, ElementState::Pressed));
    assert_eq!(e.process_winput(), Some(WinputAction::PressKey(0x37)));
    assert_eq!(e.process_winput(), WinputEmulator::new().action(&e));
}
