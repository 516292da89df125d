//! The input server's decisions: what each event of the reliable transport
//! leads to, and when its service loop may sleep. The endpoint itself is
//! outside; its events come in as plain values.

use crate::actuation::{actuation_of, next_state, Actuation, ActuationDispatcher, ActuationView};
use crate::codec::{decoded, DecodeError, INPUT_TYPE_COUNT, PACKET_LENGTH};
use crate::gamepad::GamepadState;
use vstd::prelude::*;

verus! {

/// The UDP port of the input endpoint.
pub const ENET_PORT: u16 = 7777;

/// The channel that carries input commands.
pub const ENET_CHANNEL_INPUT: u8 = 0;

/// How many peers the endpoint admits: one. The transport turns away a
/// second one.
pub const ENET_PEER_LIMIT: usize = 1;

/// How many channels a peer has.
pub const ENET_CHANNEL_LIMIT: usize = 2;

/// How long the service loop sleeps after a pass that found no event.
pub const IDLE_SLEEP_MILLIS: u64 = 10;

/// One event of the endpoint.
pub enum TransportEvent {
    Connect { peer: usize },
    Disconnect { peer: usize },
    Receive { peer: usize, channel: u8, payload: Vec<u8> },
}

/// What the server does about an event.
pub enum Reaction {
    /// A peer came: noted, nothing else.
    PeerConnected { peer: usize },
    /// A peer went: noted, nothing else. Commands that it sent stay
    /// applied.
    PeerDisconnected { peer: usize },
    /// A packet was decoded and applied.
    Applied { actuation: Actuation },
    /// A packet was not decoded. It is noted and dropped; the peer stays.
    Dropped { error: DecodeError },
}

/// A `Reaction` with its actuation by its view.
pub enum ReactionView {
    PeerConnected { peer: usize },
    PeerDisconnected { peer: usize },
    Applied { actuation: ActuationView },
    Dropped { error: DecodeError },
}

impl View for Reaction {
    type V = ReactionView;

    open spec fn view(&self) -> ReactionView {
        match self {
            Reaction::PeerConnected { peer } => ReactionView::PeerConnected { peer: *peer },
            Reaction::PeerDisconnected { peer } => ReactionView::PeerDisconnected { peer: *peer },
            Reaction::Applied { actuation } => ReactionView::Applied { actuation: actuation@ },
            Reaction::Dropped { error } => ReactionView::Dropped { error: *error },
        }
    }
}

/// The reaction to a packet when the controller is in `state`.
pub open spec fn reaction_to_packet(state: GamepadState, payload: Seq<u8>) -> ReactionView {
    match decoded(payload) {
        Ok(command) => ReactionView::Applied { actuation: actuation_of(state, command) },
        Err(error) => ReactionView::Dropped { error },
    }
}

/// The controller's state after a packet: changed by a packet that
/// decodes, and by no other.
pub open spec fn state_after_packet(state: GamepadState, payload: Seq<u8>) -> GamepadState {
    match decoded(payload) {
        Ok(command) => next_state(state, command),
        Err(_) => state,
    }
}

/// A packet that does not decode is dropped with the reason and has no
/// effect: the controller stays as it was, and nothing is asked of the
/// pointer or of the controller.
pub proof fn undecodable_packets_have_no_effect(state: GamepadState, payload: Seq<u8>)
    requires
        payload.len() != PACKET_LENGTH || payload[0] >= INPUT_TYPE_COUNT,
    ensures
        decoded(payload) is Err,
        reaction_to_packet(state, payload) == (ReactionView::Dropped {
            error: decoded(payload)->Err_0,
        }),
        state_after_packet(state, payload) == state,
{
}

/// The controller's state after a run of packets, the first of them first.
pub open spec fn state_after_packets(state: GamepadState, payloads: Seq<Seq<u8>>) -> GamepadState
    decreases payloads.len(),
{
    if payloads.len() == 0 {
        state
    } else {
        state_after_packet(state_after_packets(state, payloads.drop_last()), payloads.last())
    }
}

/// A packet that does not decode does not disturb the service of the
/// packets around it: the controller ends where it would have ended had
/// the packet never come.
pub proof fn a_dropped_packet_leaves_the_rest_as_served(
    state: GamepadState,
    before: Seq<Seq<u8>>,
    dropped: Seq<u8>,
    after: Seq<Seq<u8>>,
)
    requires
        decoded(dropped) is Err,
    ensures
        state_after_packets(state, before.push(dropped) + after) == state_after_packets(
            state,
            before + after,
        ),
    decreases after.len(),
{
    if after.len() == 0 {
        assert(before.push(dropped) + after =~= before.push(dropped));
        assert(before + after =~= before);
        assert(before.push(dropped).drop_last() =~= before);
    } else {
        let init = after.drop_last();
        a_dropped_packet_leaves_the_rest_as_served(state, before, dropped, init);
        assert((before.push(dropped) + after).drop_last() =~= before.push(dropped) + init);
        assert((before + after).drop_last() =~= before + init);
    }
}

/// How long to sleep after a pass that drained `drained` events: the idle
/// interval after an empty pass, not at all after any other.
pub open spec fn pause_after(drained: nat) -> Option<u64> {
    if drained == 0 {
        Some(IDLE_SLEEP_MILLIS)
    } else {
        None
    }
}

/// The input server between two events: the dispatcher, and how many
/// events the current pass of the service loop has drained so far.
pub struct InputServer {
    pub dispatcher: ActuationDispatcher,
    pub drained: usize,
}

impl InputServer {
    /// A server at the start of its first pass, over a controller at rest.
    pub fn new() -> (server: InputServer)
        ensures
            server.dispatcher.state == GamepadState::neutral(),
            server.drained == 0,
    {
        InputServer { dispatcher: ActuationDispatcher::new(), drained: 0 }
    }

    /// Takes one event that the endpoint handed out.
    ///
    /// Commands are applied in the order in which their packets come,
    /// whatever channel they come on. A packet that does not decode leaves
    /// the controller as it was and is answered by `Dropped`; the events
    /// after it are served as ever.
    pub fn on_event(&mut self, event: &TransportEvent) -> (reaction: Reaction)
        ensures
            final(self).drained == if old(self).drained == usize::MAX {
                usize::MAX
            } else {
                (old(self).drained + 1) as usize
            },
            match *event {
                TransportEvent::Connect { peer } => reaction@ == (ReactionView::PeerConnected {
                    peer,
                }) && final(self).dispatcher.state == old(self).dispatcher.state,
                TransportEvent::Disconnect { peer } => reaction@
                    == (ReactionView::PeerDisconnected { peer }) && final(self).dispatcher.state
                    == old(self).dispatcher.state,
                TransportEvent::Receive { peer, channel, payload } => reaction@
                    == reaction_to_packet(old(self).dispatcher.state, payload@)
                    && final(self).dispatcher.state == state_after_packet(
                    old(self).dispatcher.state,
                    payload@,
                ),
            },
    {
        if self.drained < usize::MAX {
            self.drained = self.drained + 1;
        }
        match event {
            TransportEvent::Connect { peer } => Reaction::PeerConnected { peer: *peer },
            TransportEvent::Disconnect { peer } => Reaction::PeerDisconnected { peer: *peer },
            TransportEvent::Receive { peer, channel, payload } => {
                match self.dispatcher.handle_packet(payload.as_slice()) {
                    Ok(actuation) => Reaction::Applied { actuation },
                    Err(error) => Reaction::Dropped { error },
                }
            },
        }
    }

    /// Ends a pass of the service loop, after the endpoint had no further
    /// event to hand out, and says how long to sleep before the next.
    pub fn end_pass(&mut self) -> (pause: Option<u64>)
        ensures
            pause == pause_after(old(self).drained as nat),
            final(self).drained == 0,
            final(self).dispatcher.state == old(self).dispatcher.state,
    {
        let pause = idle_pause(self.drained);
        self.drained = 0;
        pause
    }
}

/// How long the service loop sleeps after a pass that drained `drained`
/// events, in milliseconds.
pub fn idle_pause(drained: usize) -> (pause: Option<u64>)
    ensures
        pause == pause_after(drained as nat),
{
    if drained == 0 {
        Some(IDLE_SLEEP_MILLIS)
    } else {
        None
    }
}

} // verus!
