//! What the injection side does with a received event: the report that a
//! USB HID bridge device takes, or the press, release, move or scroll that
//! the Windows injection backend performs.
use vstd::prelude::*;
use crate::codes::{
    button_id, hid_usage, state_byte, virtual_key, ElementState, HidEvent, MouseButton,
};

verus! {

/// The report kinds of the HID bridge device.
pub const REPORT_KEY: u8 = 0;
pub const REPORT_MOTION: u8 = 1;
pub const REPORT_BUTTON: u8 = 2;
pub const REPORT_SCROLL: u8 = 3;

/// The report for an event: a zero report id, the kind, then the payload.
/// Motion and scroll amounts are cut to their low byte. A key without a
/// keyboard-page usage has no report.
pub open spec fn report_bytes(e: HidEvent) -> Option<Seq<u8>> {
    match e {
        HidEvent::Key(s) => match hid_usage(s.code) {
            Some(u) => Some(seq![0u8, REPORT_KEY, u, state_byte(s.dir)]),
            None => None,
        },
        HidEvent::MouseDelta(dx, dy) => Some(seq![0u8, REPORT_MOTION, dx as u8, dy as u8]),
        HidEvent::MouseButton(b) => Some(
            seq![0u8, REPORT_BUTTON, button_id(b.button), state_byte(b.dir)],
        ),
        HidEvent::MouseScroll(d) => Some(seq![0u8, REPORT_SCROLL, d as u8]),
    }
}

/// The report that the HID bridge device takes for an event, or `None` for a
/// key that it cannot report.
pub fn hid_report(e: &HidEvent) -> (r: Option<Vec<u8>>)
    ensures
        r is Some == report_bytes(*e) is Some,
        r is Some ==> r.unwrap()@ == report_bytes(*e).unwrap(),
{
    match e {
        HidEvent::Key(s) => match s.to_hid() {
            Some(u) => Some(vec![0u8, REPORT_KEY, u, s.dir.to_byte()]),
            None => None,
        },
        HidEvent::MouseDelta(dx, dy) => Some(vec![0u8, REPORT_MOTION, *dx as u8, *dy as u8]),
        HidEvent::MouseButton(b) => Some(vec![0u8, REPORT_BUTTON, b.to_hid(), b.dir.to_byte()]),
        HidEvent::MouseScroll(d) => Some(vec![0u8, REPORT_SCROLL, *d as u8]),
    }
}

/// One call into the Windows injection backend.
#[derive(Clone, Copy, Debug, PartialEq, Eq, Structural)]
pub enum WinputAction {
    /// Press the key with this virtual-key code.
    PressKey(u8),
    /// Release the key with this virtual-key code.
    ReleaseKey(u8),
    PressButton(MouseButton),
    ReleaseButton(MouseButton),
    MoveRelative(i32, i32),
    Scroll(i32),
}

/// The call for an event; a key without a virtual-key code has none.
pub open spec fn winput_action(e: HidEvent) -> Option<WinputAction> {
    match e {
        HidEvent::Key(s) => match virtual_key(s.code) {
            Some(vk) => Some(
                if s.dir == ElementState::Pressed {
                    WinputAction::PressKey(vk)
                } else {
                    WinputAction::ReleaseKey(vk)
                },
            ),
            None => None,
        },
        HidEvent::MouseDelta(dx, dy) => Some(WinputAction::MoveRelative(dx, dy)),
        HidEvent::MouseButton(b) => Some(
            if b.dir == ElementState::Pressed {
                WinputAction::PressButton(b.button)
            } else {
                WinputAction::ReleaseButton(b.button)
            },
        ),
        HidEvent::MouseScroll(d) => Some(WinputAction::Scroll(d)),
    }
}

/// The injection backend that drives Windows' own input queue.
#[derive(Clone, Copy, Debug, PartialEq, Eq, Structural)]
pub struct WinputEmulator;

impl WinputEmulator {
    pub fn new() -> (r: WinputEmulator)
        ensures
            r == WinputEmulator,
    {
        WinputEmulator
    }

    /// The backend call that replays an event, if it has one.
    pub fn action(&self, e: &HidEvent) -> (r: Option<WinputAction>)
        ensures
            r == winput_action(*e),
    {
        e.process_winput()
    }
}

impl HidEvent {
    /// The Windows injection call that replays this event, if it has one.
    pub fn process_winput(&self) -> (r: Option<WinputAction>)
        ensures
            r == winput_action(*self),
    {
        match self {
            HidEvent::Key(s) => match s.to_winput() {
                Some(vk) => Some(
                    match s.dir {
                        ElementState::Pressed => WinputAction::PressKey(vk),
                        ElementState::Released => WinputAction::ReleaseKey(vk),
                    },
                ),
                None => None,
            },
            HidEvent::MouseDelta(dx, dy) => Some(WinputAction::MoveRelative(*dx, *dy)),
            HidEvent::MouseButton(b) => Some(
                match b.dir {
                    ElementState::Pressed => WinputAction::PressButton(b.button),
                    ElementState::Released => WinputAction::ReleaseButton(b.button),
                },
            ),
            HidEvent::MouseScroll(d) => Some(WinputAction::Scroll(*d)),
        }
    }
}

} // verus!
