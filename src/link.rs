//! The connection supervisor's decisions.
//!
//! The supervisor owns the link. It is told what happened (an attempt to
//! connect failed or succeeded, a stream handler failed, the handlers have
//! stopped) and answers with what to do next. It never starts a set of
//! handlers while another set still runs, and it waits longer after each
//! failed attempt, up to a cap.
use vstd::prelude::*;

verus! {

/// The wait before the first retry.
pub const RETRY_BASE_MS: u64 = 100;

/// The longest wait between attempts.
pub const RETRY_CAP_MS: u64 = 5000;

#[derive(Clone, Copy, Debug, PartialEq, Eq, Structural)]
pub enum LinkState {
    /// No link, and no attempt under way (at the start, or while the
    /// handlers of a dropped link are being stopped).
    Disconnected,
    /// Attempts to establish the link are under way.
    Connecting,
    /// The link is up and one set of handlers runs on it.
    Connected,
}

#[derive(Clone, Copy, Debug, PartialEq, Eq, Structural)]
pub enum LinkEvent {
    /// The supervisor is started.
    Start,
    /// An attempt to connect (or accept) failed.
    ConnectFailed,
    /// An attempt to connect (or accept) succeeded.
    ConnectSucceeded,
    /// A handler of the given generation hit an I/O or decode error.
    HandlerFailed(u64),
    /// Every handler of the given generation has stopped.
    HandlersStopped(u64),
}

#[derive(Clone, Copy, Debug, PartialEq, Eq, Structural)]
pub enum LinkAction {
    /// Nothing to do.
    Wait,
    /// Try to establish the link after the given delay.
    Connect { delay_ms: u64 },
    /// Split the new link and start a fresh set of handlers on it.
    StartHandlers { generation: u64 },
    /// Cancel every handler of that generation and report when all stopped.
    StopHandlers { generation: u64 },
}

/// The wait after one more failed attempt.
pub open spec fn next_delay(d: u64) -> u64 {
    if d == 0 {
        RETRY_BASE_MS
    } else if d >= RETRY_CAP_MS / 2 {
        RETRY_CAP_MS
    } else {
        (2 * d) as u64
    }
}

/// The generation after `g`.
pub open spec fn next_generation(g: u64) -> u64 {
    if g == u64::MAX {
        0
    } else {
        (g + 1) as u64
    }
}

pub struct ConnectionManager {
    pub state: LinkState,
    /// The generation of the newest set of handlers.
    pub generation: u64,
    /// Whether the handlers of `generation` may still run.
    pub running: bool,
    /// The wait before the next attempt.
    pub delay_ms: u64,
}

/// The supervisor's answer to an event: its next state and its action.
/// An event that does not fit the state (a stale report from an older
/// generation, say) changes nothing.
pub open spec fn link_step(m: ConnectionManager, e: LinkEvent) -> (ConnectionManager, LinkAction) {
    if m.state == LinkState::Disconnected && e == LinkEvent::Start && !m.running {
        (
            ConnectionManager { state: LinkState::Connecting, delay_ms: 0, ..m },
            LinkAction::Connect { delay_ms: 0 },
        )
    } else if m.state == LinkState::Connecting && e == LinkEvent::ConnectFailed {
        let d = next_delay(m.delay_ms);
        (ConnectionManager { delay_ms: d, ..m }, LinkAction::Connect { delay_ms: d })
    } else if m.state == LinkState::Connecting && e == LinkEvent::ConnectSucceeded {
        let g = next_generation(m.generation);
        (
            ConnectionManager {
                state: LinkState::Connected,
                generation: g,
                running: true,
                delay_ms: 0,
            },
            LinkAction::StartHandlers { generation: g },
        )
    } else if m.state == LinkState::Connected && e == LinkEvent::HandlerFailed(m.generation) {
        (
            ConnectionManager { state: LinkState::Disconnected, ..m },
            LinkAction::StopHandlers { generation: m.generation },
        )
    } else if m.state == LinkState::Disconnected && m.running && e == LinkEvent::HandlersStopped(
        m.generation,
    ) {
        (
            ConnectionManager { state: LinkState::Connecting, running: false, delay_ms: 0, ..m },
            LinkAction::Connect { delay_ms: 0 },
        )
    } else {
        (m, LinkAction::Wait)
    }
}

impl ConnectionManager {
    /// Handlers run exactly while the link is up or being torn down, and the
    /// wait never passes the cap.
    pub open spec fn wf(&self) -> bool {
        &&& (self.state == LinkState::Connected ==> self.running)
        &&& (self.state == LinkState::Connecting ==> !self.running)
        &&& self.delay_ms <= RETRY_CAP_MS
    }

    pub fn new() -> (r: ConnectionManager)
        ensures
            r.wf(),
            r.state == LinkState::Disconnected,
            !r.running,
            r.generation == 0,
            r.delay_ms == 0,
    {
        ConnectionManager { state: LinkState::Disconnected, generation: 0, running: false, delay_ms: 0 }
    }

    /// Takes one event and says what to do.
    pub fn step(&mut self, e: LinkEvent) -> (a: LinkAction)
        requires
            old(self).wf(),
        ensures
            final(self).wf(),
            (*final(self), a) == link_step(*old(self), e),
    {
        let g = self.generation;
        if self.state == LinkState::Disconnected && e == LinkEvent::Start && !self.running {
            self.state = LinkState::Connecting;
            self.delay_ms = 0;
            LinkAction::Connect { delay_ms: 0 }
        } else if self.state == LinkState::Connecting && e == LinkEvent::ConnectFailed {
            let d = if self.delay_ms == 0 {
                RETRY_BASE_MS
            } else if self.delay_ms >= RETRY_CAP_MS / 2 {
                RETRY_CAP_MS
            } else {
                2 * self.delay_ms
            };
            self.delay_ms = d;
            LinkAction::Connect { delay_ms: d }
        } else if self.state == LinkState::Connecting && e == LinkEvent::ConnectSucceeded {
            let next = if g == u64::MAX {
                0
            } else {
                g + 1
            };
            self.state = LinkState::Connected;
            self.generation = next;
            self.running = true;
            self.delay_ms = 0;
            LinkAction::StartHandlers { generation: next }
        } else if self.state == LinkState::Connected && e == LinkEvent::HandlerFailed(g) {
            self.state = LinkState::Disconnected;
            LinkAction::StopHandlers { generation: g }
        } else if self.state == LinkState::Disconnected && self.running && e
            == LinkEvent::HandlersStopped(g) {
            self.state = LinkState::Connecting;
            self.running = false;
            self.delay_ms = 0;
            LinkAction::Connect { delay_ms: 0 }
        } else {
            LinkAction::Wait
        }
    }
}

/// A fresh set of handlers starts only when no other set runs, and it gets a
/// new generation; a failure always leads to a stop before any reconnect.
pub proof fn lemma_one_handler_set(m: ConnectionManager, e: LinkEvent)
    requires
        m.wf(),
    ensures
        link_step(m, e).0.wf(),
        link_step(m, e).1 is StartHandlers ==> !m.running && link_step(m, e).0.running
            && link_step(m, e).1 == (LinkAction::StartHandlers {
                generation: next_generation(m.generation),
            }),
        link_step(m, e).1 is Connect ==> !link_step(m, e).0.running,
        m.state == LinkState::Connected && e == LinkEvent::HandlerFailed(m.generation)
            ==> link_step(m, e).1 == (LinkAction::StopHandlers { generation: m.generation }),
{
}

} // verus!
