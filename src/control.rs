//! The control-signal handler: what to do when a display switch is asked
//! for, by the peer or by a local program.
//!
//! The handler first queries the monitor's input-select control. A query
//! that fails means this machine is not the monitor's active input: it then
//! switches the monitor to its own input. A query that succeeds means this
//! machine is already active: it passes the request on to the peer, which
//! makes the same check from its side. There is no retry and no answer.
use vstd::prelude::*;
use crate::framing::{frame, frame_message};
use crate::wire::{message_bytes, ChannelMessage};

verus! {

/// The monitor control (VCP code) that selects the input source.
pub const INPUT_SELECT_CODE: u8 = 0x60;

/// The input source that the client machine is wired to.
pub const CLIENT_INPUT: u16 = 0x10;

/// The input source that the server machine is wired to.
pub const SERVER_INPUT: u16 = 0x12;

#[derive(Clone, Copy, Debug, PartialEq, Eq, Structural)]
pub enum ControlAction {
    /// Set the monitor control `code` to `value`.
    SetInput { code: u8, value: u16 },
    /// Send a `ChangeDisplay` message to the peer.
    NotifyPeer,
}

/// The handler of one machine, with the input source it is wired to.
#[derive(Clone, Copy, Debug, PartialEq, Eq, Structural)]
pub struct DisplaySwitch {
    pub own_input: u16,
}

/// The handler's answer to a switch request, given whether the query of the
/// monitor's input succeeded.
pub open spec fn control_action(own_input: u16, query_ok: bool) -> ControlAction {
    if query_ok {
        ControlAction::NotifyPeer
    } else {
        ControlAction::SetInput { code: INPUT_SELECT_CODE, value: own_input }
    }
}

impl DisplaySwitch {
    pub fn new(own_input: u16) -> (r: DisplaySwitch)
        ensures
            r.own_input == own_input,
    {
        DisplaySwitch { own_input }
    }

    /// Decides what to do with a switch request.
    pub fn on_change_display(&self, query_ok: bool) -> (a: ControlAction)
        ensures
            a == control_action(self.own_input, query_ok),
    {
        if query_ok {
            ControlAction::NotifyPeer
        } else {
            ControlAction::SetInput { code: INPUT_SELECT_CODE, value: self.own_input }
        }
    }

    /// The bytes to write to the peer for a decision: one framed
    /// `ChangeDisplay` message when the request is passed on, none otherwise.
    pub fn peer_bytes(&self, a: &ControlAction) -> (r: Vec<u8>)
        ensures
            *a == ControlAction::NotifyPeer ==> r@ == frame(
                message_bytes(ChannelMessage::ChangeDisplay),
            ),
            *a != ControlAction::NotifyPeer ==> r@.len() == 0,
    {
        match a {
            ControlAction::NotifyPeer => frame_message(&ChannelMessage::ChangeDisplay),
            ControlAction::SetInput { .. } => Vec::new(),
        }
    }
}

} // verus!
