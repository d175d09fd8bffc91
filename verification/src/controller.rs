//! Client connection controller: the state machine a client walks from
//! choosing a server to a live connection, and the two queues that bridge
//! the network task and the render loop.
//!
//! The embedding program owns the socket, the timers and the UI. It reports
//! each outcome (connect result, write result, what the first state frame
//! held, steady-state I/O errors) as a `ConnEvent`; `step` decides the next
//! phase. Every connection-stage failure returns to `SelectingServer` —
//! the controller never stalls in an intermediate phase.
//!
//! While connected, exactly one background task owns the socket; the render
//! loop only exchanges `UpdateEvent`s with it through two `EventQueue`s,
//! which hand events out exactly in the order they were put in (program
//! order is preserved).

use crate::session::{UpdateEvent, UpdateEventView};
use vstd::prelude::*;

verus! {

/// Where the client stands in its connection lifecycle.
#[derive(Debug, Clone, Copy, PartialEq, Eq, Structural)]
pub enum ConnPhase {
    /// Showing the server list; no connection in progress.
    SelectingServer,
    /// Transport handshake to the chosen address in progress.
    Connecting,
    /// Sending the frame with the serialized credentials.
    Authenticating,
    /// Waiting for exactly one frame with the initial state.
    AwaitingState,
    /// Steady state: exchanging updates.
    Connected,
    /// The connection is gone; the presentation layer must stop sending.
    Disconnected,
}

/// One outcome the embedding program reports to the controller.
#[derive(Debug, Clone, Copy)]
pub enum ConnEvent {
    /// The user picked a server address.
    ServerChosen,
    /// The transport handshake succeeded.
    ConnectSucceeded,
    /// The whole connect attempt failed or did not finish within its bounded
    /// timeout. The transport layer may fall back from a secure to an
    /// insecure handshake once within one attempt; the controller sees only
    /// the attempt's final outcome.
    ConnectFailed,
    /// The credentials frame was written and flushed.
    AuthSent,
    /// Writing the credentials frame failed, or timed out.
    AuthSendFailed,
    /// The initial state frame arrived and parsed; its `authenticated` flag.
    /// A false flag is its own failure outcome: the socket is closed and the
    /// controller returns to server selection.
    StateReceived { authenticated: bool },
    /// The state frame could not be read or parsed, or the peer closed —
    /// failure outcomes distinct from a rejection, with the same exit.
    StateFailed,
    /// An I/O error on the shared connection while connected.
    IoError,
    /// The user closed the session locally.
    LocalClose,
}

/// The controller's transition relation. Successes walk forward through the
/// phases; every connection-stage failure returns to `SelectingServer`; a
/// failure while connected ends in `Disconnected`. An event that cannot
/// occur in a phase leaves the phase unchanged.
pub open spec fn next_phase(p: ConnPhase, ev: ConnEvent) -> ConnPhase {
    match p {
        ConnPhase::SelectingServer => match ev {
            ConnEvent::ServerChosen => ConnPhase::Connecting,
            _ => ConnPhase::SelectingServer,
        },
        ConnPhase::Connecting => match ev {
            ConnEvent::ConnectSucceeded => ConnPhase::Authenticating,
            ConnEvent::ConnectFailed => ConnPhase::SelectingServer,
            _ => ConnPhase::Connecting,
        },
        ConnPhase::Authenticating => match ev {
            ConnEvent::AuthSent => ConnPhase::AwaitingState,
            ConnEvent::AuthSendFailed => ConnPhase::SelectingServer,
            _ => ConnPhase::Authenticating,
        },
        ConnPhase::AwaitingState => match ev {
            ConnEvent::StateReceived { authenticated } => {
                if authenticated {
                    ConnPhase::Connected
                } else {
                    ConnPhase::SelectingServer
                }
            },
            ConnEvent::StateFailed => ConnPhase::SelectingServer,
            _ => ConnPhase::AwaitingState,
        },
        ConnPhase::Connected => match ev {
            ConnEvent::IoError => ConnPhase::Disconnected,
            ConnEvent::LocalClose => ConnPhase::Disconnected,
            _ => ConnPhase::Connected,
        },
        ConnPhase::Disconnected => match ev {
            ConnEvent::ServerChosen => ConnPhase::Connecting,
            _ => ConnPhase::Disconnected,
        },
    }
}

/// Advances the controller by one reported outcome.
pub fn step(p: ConnPhase, ev: ConnEvent) -> (r: ConnPhase)
    ensures
        r == next_phase(p, ev),
{
    match p {
        ConnPhase::SelectingServer => match ev {
            ConnEvent::ServerChosen => ConnPhase::Connecting,
            _ => ConnPhase::SelectingServer,
        },
        ConnPhase::Connecting => match ev {
            ConnEvent::ConnectSucceeded => ConnPhase::Authenticating,
            ConnEvent::ConnectFailed => ConnPhase::SelectingServer,
            _ => ConnPhase::Connecting,
        },
        ConnPhase::Authenticating => match ev {
            ConnEvent::AuthSent => ConnPhase::AwaitingState,
            ConnEvent::AuthSendFailed => ConnPhase::SelectingServer,
            _ => ConnPhase::Authenticating,
        },
        ConnPhase::AwaitingState => match ev {
            ConnEvent::StateReceived { authenticated } => {
                if authenticated {
                    ConnPhase::Connected
                } else {
                    ConnPhase::SelectingServer
                }
            },
            ConnEvent::StateFailed => ConnPhase::SelectingServer,
            _ => ConnPhase::AwaitingState,
        },
        ConnPhase::Connected => match ev {
            ConnEvent::IoError => ConnPhase::Disconnected,
            ConnEvent::LocalClose => ConnPhase::Disconnected,
            _ => ConnPhase::Connected,
        },
        ConnPhase::Disconnected => match ev {
            ConnEvent::ServerChosen => ConnPhase::Connecting,
            _ => ConnPhase::Disconnected,
        },
    }
}

/// The phase after a whole sequence of reported outcomes, oldest first.
pub open spec fn run_events(p: ConnPhase, evs: Seq<ConnEvent>) -> ConnPhase
    decreases evs.len(),
{
    if evs.len() == 0 {
        p
    } else {
        next_phase(run_events(p, evs.drop_last()), evs.last())
    }
}

/// However many consecutive connect failures the transport reports — one or
/// more, each failed or timed out within its bound — the controller is back
/// at `SelectingServer`, never stalled in `Connecting`.
pub proof fn lemma_connect_failures_return_to_selection(evs: Seq<ConnEvent>)
    requires
        evs.len() >= 1,
        forall|i: int| 0 <= i < evs.len() ==> evs[i] is ConnectFailed,
    ensures
        run_events(ConnPhase::Connecting, evs) is SelectingServer,
    decreases evs.len(),
{
    assert(evs.last() == evs[evs.len() - 1]);
    if evs.len() > 1 {
        assert(forall|i: int|
            0 <= i < evs.drop_last().len() ==> evs.drop_last()[i] == evs[i]);
        lemma_connect_failures_return_to_selection(evs.drop_last());
    }
}

/// The user's ordered list of known server addresses: append one.
pub fn add_server(servers: &mut Vec<String>, address: String)
    ensures
        final(servers)@ == old(servers)@.push(address),
{
    servers.push(address);
}

/// The user's ordered list of known server addresses: remove one.
pub fn remove_server(servers: &mut Vec<String>, index: usize)
    requires
        index < old(servers)@.len(),
    ensures
        final(servers)@ == old(servers)@.remove(index as int),
{
    servers.remove(index);
}

/// A mutex-guarded queue's contents: `UpdateEvent`s in arrival order. One
/// such queue carries inbound events from the network task to the render
/// loop, a second carries outbound events the other way. Locking is the
/// embedding program's concern; the queue itself guarantees the order.
#[derive(Debug)]
pub struct EventQueue {
    items: Vec<UpdateEvent>,
}

impl View for EventQueue {
    type V = Seq<UpdateEventView>;

    closed spec fn view(&self) -> Seq<UpdateEventView> {
        self.items@.map_values(|e: UpdateEvent| e@)
    }
}

impl EventQueue {
    /// A fresh, empty queue.
    pub fn new() -> (r: EventQueue)
        ensures
            r@ == Seq::<UpdateEventView>::empty(),
    {
        let r = EventQueue { items: Vec::new() };
        proof {
            assert(r@ =~= Seq::<UpdateEventView>::empty());
        }
        r
    }

    /// How many events are waiting.
    pub fn len(&self) -> (r: usize)
        ensures
            r == self@.len(),
    {
        self.items.len()
    }

    /// Appends one event; nothing already queued moves.
    pub fn push(&mut self, ev: UpdateEvent)
        ensures
            final(self)@ == old(self)@.push(ev@),
    {
        let ghost evv = ev@;
        self.items.push(ev);
        proof {
            assert(self@ =~= old(self)@.push(evv));
        }
    }

    /// Takes every queued event, in exactly the order it was pushed:
    /// program order is preserved across the queue.
    pub fn drain(&mut self) -> (r: Vec<UpdateEvent>)
        ensures
            final(self)@ == Seq::<UpdateEventView>::empty(),
            r@.map_values(|e: UpdateEvent| e@) == old(self)@,
    {
        let r = self.items.split_off(0);
        proof {
            assert(self@ =~= Seq::<UpdateEventView>::empty());
            assert(r@ =~= old(self).items@);
        }
        r
    }
}

} // verus!
