use kvm_link::codes::{ElementState, HidEvent, KeyCode, MouseButton, MouseButtons, ScanCode};
use kvm_link::wire::{decode, encode, ChannelMessage, DecodeError};

fn key(code: KeyCode, dir: ElementState) -> ChannelMessage {
    ChannelMessage::Hid(HidEvent::Key(ScanCode::new(code, dir)))
}

#[test]
fn change_display_is_one_tag_byte() {
    assert_eq!(encode(&ChannelMessage::ChangeDisplay), vec![1u8]);
}

#[test]
fn key_event_layout() {
    assert_eq!(encode(&key(KeyCode::KeyA, ElementState::Pressed)), vec![0u8, 0, 16, 1]);
    assert_eq!(encode(&key(KeyCode::Enter, ElementState::Released)), vec![0u8, 0, 53, 0]);
}

#[test]
fn motion_event_layout_is_little_endian() {
    let m = ChannelMessage::Hid(HidEvent::MouseDelta(258, -1));
    assert_eq!(encode(&m), vec![0u8, 1, 0x02, 0x01, 0, 0, 0xFF, 0xFF, 0xFF, 0xFF]);
}

#[test]
fn button_and_scroll_layout() {
    let b = ChannelMessage::Hid(HidEvent::MouseButton(MouseButtons::new(
        MouseButton::Middle,
        ElementState::Pressed,
    )));
    assert_eq!(encode(&b), vec![0u8, 2, 3, 1]);
    let s = ChannelMessage::Hid(HidEvent::MouseScroll(-2));
    assert_eq!(encode(&s), vec![0u8, 3, 0xFE, 0xFF, 0xFF, 0xFF]);
}

#[test]
fn every_kind_round_trips() {
    let msgs = vec![
        ChannelMessage::ChangeDisplay,
        key(KeyCode::KeyZ, ElementState::Pressed),
        key(KeyCode::F12, ElementState::Released),
        key(KeyCode::AltRight, ElementState::Pressed),
        ChannelMessage::Hid(HidEvent::MouseDelta(i32::MIN, i32::MAX)),
        ChannelMessage::Hid(HidEvent::MouseDelta(0, -7)),
        ChannelMessage::Hid(HidEvent::MouseButton(MouseButtons::new(
            MouseButton::Forward,
            ElementState::Released,
        ))),
        ChannelMessage::Hid(HidEvent::MouseScroll(-120)),
    ];
    for m in msgs {
        assert_eq!(decode(&encode(&m)), Ok(m));
    }
}

#[test]
fn wrong_lengths_are_malformed() {
    assert_eq!(decode(&[]), Err(DecodeError::Malformed));
    assert_eq!(decode(&[1, 0]), Err(DecodeError::Malformed));
    assert_eq!(decode(&[0]), Err(DecodeError::Malformed));
    assert_eq!(decode(&[0, 0, 0x04]), Err(DecodeError::Malformed));
    assert_eq!(decode(&[0, 1, 0, 0, 0, 0, 0, 0, 0]), Err(DecodeError::Malformed));
    assert_eq!(decode(&[0, 3, 1, 0, 0, 0, 0]), Err(DecodeError::Malformed));
}

#[test]
fn unknown_discriminants_are_reported() {
    assert_eq!(decode(&[2]), Err(DecodeError::UnknownTag));
    assert_eq!(decode(&[0, 9, 0, 0]), Err(DecodeError::UnknownTag));
    assert_eq!(decode(&[0, 0, 200, 1]), Err(DecodeError::UnknownTag));
    assert_eq!(decode(&[0, 0, 0x04, 2]), Err(DecodeError::UnknownTag));
    assert_eq!(decode(&[0, 2, 6, 1]), Err(DecodeError::UnknownTag));
}

#[test]
fn key_tables() {
    let down = ElementState::Pressed;
    assert_eq!(ScanCode::new(KeyCode::KeyA, down).to_hid(), Some(0x04));
    assert_eq!(ScanCode::new(KeyCode::Digit0, down).to_hid(), Some(0x27));
    assert_eq!(ScanCode::new(KeyCode::F1, down).to_hid(), Some(0x3A));
    assert_eq!(ScanCode::new(KeyCode::F13, down).to_hid(), Some(0x68));
    assert_eq!(ScanCode::new(KeyCode::AltRight, down).to_hid(), Some(0xE3));
    assert_eq!(ScanCode::new(KeyCode::MediaPlayPause, down).to_hid(), None);
    assert_eq!(ScanCode::new(KeyCode::KeyA, down).to_winput(), Some(0x41));
    assert_eq!(ScanCode::new(KeyCode::KeyZ, down).to_winput(), Some(0x5A));
    assert_eq!(ScanCode::new(KeyCode::ArrowLeft, down).to_winput(), Some(0x25));
    assert_eq!(ScanCode::new(KeyCode::ControlLeft, down).to_winput(), Some(0x11));
    assert_eq!(ScanCode::new(KeyCode::ControlRight, down).to_winput(), Some(0x11));
    assert_eq!(ScanCode::new(KeyCode::F1, down).to_winput(), Some(0x70));
    assert_eq!(ScanCode::new(KeyCode::F24, down).to_winput(), Some(0x87));
    assert_eq!(ScanCode::new(KeyCode::Enter, down).to_winput(), Some(0x0D));
    assert_eq!(ScanCode::new(KeyCode::MediaPlayPause, down).to_winput(), Some(0xB3));
    assert_eq!(ScanCode::new(KeyCode::SuperLeft, down).to_winput(), None);
    assert_eq!(ScanCode::new(KeyCode::NumpadClear, down).to_winput(), None);
    assert_eq!(KeyCode::KeyZ.id(), 41);
    assert_eq!(KeyCode::from_id(41), Some(KeyCode::KeyZ));
    assert_eq!(KeyCode::from_id(143), None);
    assert_eq!(MouseButtons::new(MouseButton::Back, down).to_hid(), 4);
}
