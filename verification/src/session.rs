//! The signaling server's decisions: who is registered, whom a frame goes
//! to, and when the media pipeline starts and stops. The sockets are
//! outside; what happens on them comes in as events.

use crate::pipeline::{
    description_for, PipelineAction, PipelineActionView, PipelineController, PipelineFailure,
};
use crate::registry::{
    has_addr, others, unique_addresses, with_record, with_record_holds, without_addr,
    without_addr_holds, PeerAddr, PeerRecord, PeerRegistry,
};
use vstd::prelude::*;

verus! {

/// The port that the signaling server listens on unless told otherwise.
pub const DEFAULT_SIGNALING_PORT: u32 = 5600;

/// The stages of one connection.
#[derive(Clone, Copy, Debug, PartialEq, Eq, Structural)]
pub enum ConnectionState {
    /// Accepted, the handshake not yet done.
    Connecting,
    /// Registered; frames flow both ways.
    Established,
    /// One of the two directions has ended; the other is being torn down.
    Closing,
    /// No longer in the registry.
    Removed,
}

/// What can happen to a connection.
#[derive(Clone, Copy, Debug, PartialEq, Eq, Structural)]
pub enum ConnectionEvent {
    HandshakeSucceeded,
    HandshakeFailed,
    /// The peer's stream of frames ended, by a close frame or otherwise.
    InboundEnded,
    /// The transport reported an error.
    TransportError,
    /// The peer's queue of outgoing messages was closed.
    OutboundClosed,
    /// The peer's record has been taken out of the registry.
    RegistryCleared,
}

/// The stage that follows `state` on `event`. A failed handshake ends the
/// connection before it was ever registered; the first end of either
/// direction closes an established connection; an event that does not
/// belong to a stage leaves it.
pub open spec fn stage_after(state: ConnectionState, event: ConnectionEvent) -> ConnectionState {
    match (state, event) {
        (ConnectionState::Connecting, ConnectionEvent::HandshakeSucceeded) => {
            ConnectionState::Established
        },
        (ConnectionState::Connecting, ConnectionEvent::HandshakeFailed) => ConnectionState::Removed,
        (ConnectionState::Established, ConnectionEvent::InboundEnded) => ConnectionState::Closing,
        (ConnectionState::Established, ConnectionEvent::TransportError) => ConnectionState::Closing,
        (ConnectionState::Established, ConnectionEvent::OutboundClosed) => ConnectionState::Closing,
        (ConnectionState::Closing, ConnectionEvent::RegistryCleared) => ConnectionState::Removed,
        _ => state,
    }
}

impl ConnectionState {
    /// The stage that follows this one on `event`.
    pub fn advance(self, event: ConnectionEvent) -> (next: ConnectionState)
        ensures
            next == stage_after(self, event),
    {
        match (self, event) {
            (ConnectionState::Connecting, ConnectionEvent::HandshakeSucceeded) => {
                ConnectionState::Established
            },
            (ConnectionState::Connecting, ConnectionEvent::HandshakeFailed) => {
                ConnectionState::Removed
            },
            (ConnectionState::Established, ConnectionEvent::InboundEnded) => {
                ConnectionState::Closing
            },
            (ConnectionState::Established, ConnectionEvent::TransportError) => {
                ConnectionState::Closing
            },
            (ConnectionState::Established, ConnectionEvent::OutboundClosed) => {
                ConnectionState::Closing
            },
            (ConnectionState::Closing, ConnectionEvent::RegistryCleared) => {
                ConnectionState::Removed
            },
            _ => self,
        }
    }
}

/// A removed connection stays removed, and no stage is ever left for an
/// earlier one.
pub proof fn stages_only_advance(state: ConnectionState, event: ConnectionEvent)
    ensures
        state == ConnectionState::Removed ==> stage_after(state, event) == state,
        stage_rank(state) <= stage_rank(stage_after(state, event)),
{
}

/// How far along a stage is.
pub open spec fn stage_rank(state: ConnectionState) -> int {
    match state {
        ConnectionState::Connecting => 0,
        ConnectionState::Established => 1,
        ConnectionState::Closing => 2,
        ConnectionState::Removed => 3,
    }
}

/// The kinds of frame that a peer sends.
#[derive(Clone, Copy, Debug, PartialEq, Eq, Structural)]
pub enum FrameKind {
    Text,
    Binary,
    Ping,
    Pong,
    Close,
}

/// What is done with one frame.
pub struct FrameRouting {
    /// The frame is text and is to be tried as an input command. That it
    /// is none is no fault.
    pub try_command: bool,
    /// The peers whose queues get the frame as it came.
    pub recipients: Vec<PeerAddr>,
}

/// A peer came or went.
#[allow(inconsistent_fields)]
#[derive(Clone, Copy, Debug, PartialEq, Eq, Structural)]
pub enum PresenceEvent {
    Connected { addr: PeerAddr, at: i64 },
    Disconnected { addr: PeerAddr },
}

/// The session as the controller sees it: the registered peers, and the
/// viewer that the pipeline plays for if there is a pipeline.
pub struct SessionState {
    pub peers: Seq<PeerRecord>,
    pub destination: Option<PeerAddr>,
}

impl SessionState {
    pub open spec fn initial() -> SessionState {
        SessionState { peers: Seq::empty(), destination: None }
    }

    /// The pipeline is started exactly when there is a peer.
    pub open spec fn coherent(self) -> bool {
        unique_addresses(self.peers) && (self.destination is Some <==> self.peers.len() > 0)
    }

    /// The state after a peer came or went. A peer that comes is
    /// registered, and finds a pipeline or has one started for it. A peer
    /// that goes is taken out, and the pipeline with it if it was the last.
    pub open spec fn after(self, event: PresenceEvent) -> SessionState {
        match event {
            PresenceEvent::Connected { addr, at } => SessionState {
                peers: with_record(self.peers, PeerRecord { addr, connected_at: at }),
                destination: if self.destination is Some {
                    self.destination
                } else {
                    Some(addr)
                },
            },
            PresenceEvent::Disconnected { addr } => {
                let peers = without_addr(self.peers, addr);
                SessionState {
                    peers,
                    destination: if peers.len() == 0 {
                        None
                    } else {
                        self.destination
                    },
                }
            },
        }
    }

    /// The state after a sequence of events, the first of them first.
    pub open spec fn after_all(self, events: Seq<PresenceEvent>) -> SessionState
        decreases events.len(),
    {
        if events.len() == 0 {
            self
        } else {
            self.after_all(events.drop_last()).after(events.last())
        }
    }
}

/// One event keeps the pipeline in step with the registry.
pub proof fn event_keeps_coherence(state: SessionState, event: PresenceEvent)
    requires
        state.coherent(),
    ensures
        state.after(event).coherent(),
{
    match event {
        PresenceEvent::Connected { addr, at } => {
            with_record_holds(state.peers, PeerRecord { addr, connected_at: at }, addr);
        },
        PresenceEvent::Disconnected { addr } => {
            without_addr_holds(state.peers, addr, addr);
        },
    }
}

/// After any sequence of connections and disconnections, from a session
/// without peers, the pipeline is started if and only if the registry holds
/// a peer.
pub proof fn pipeline_follows_presence(events: Seq<PresenceEvent>)
    ensures
        SessionState::initial().after_all(events).coherent(),
    decreases events.len(),
{
    if events.len() > 0 {
        pipeline_follows_presence(events.drop_last());
        event_keeps_coherence(SessionState::initial().after_all(events.drop_last()), events.last());
    }
}

/// The peer registry together with the pipeline's controller.
pub struct SignalingSession {
    pub registry: PeerRegistry,
    pub pipeline: PipelineController,
}

impl View for SignalingSession {
    type V = SessionState;

    open spec fn view(&self) -> SessionState {
        SessionState { peers: self.registry@, destination: self.pipeline.destination }
    }
}

impl SignalingSession {
    /// A session without peers and without a pipeline.
    pub fn new() -> (session: SignalingSession)
        ensures
            session@ == SessionState::initial(),
    {
        SignalingSession { registry: PeerRegistry::new(), pipeline: PipelineController::new() }
    }

    /// A peer at `addr` has completed its handshake at time `now`; `host` is
    /// its address as the engine wants it written. The peer is registered,
    /// and a pipeline is started for it unless one exists.
    pub fn on_connect(&mut self, addr: PeerAddr, host: &str, now: i64) -> (action: PipelineAction)
        ensures
            final(self)@ == old(self)@.after(PresenceEvent::Connected { addr, at: now }),
            action@ == if old(self).pipeline.is_present() {
                PipelineActionView::Nothing
            } else {
                PipelineActionView::Start { description: description_for(host@) }
            },
            has_addr(final(self)@.peers, addr),
            final(self).pipeline.is_present(),
    {
        let action = self.pipeline.on_first_peer(addr, host);
        self.registry.insert(PeerRecord { addr, connected_at: now });
        action
    }

    /// The connection of the peer at `addr` has ended. The peer is taken
    /// out of the registry; if that leaves no peer, the pipeline is stopped.
    pub fn on_disconnect(&mut self, addr: PeerAddr) -> (action: PipelineAction)
        ensures
            final(self)@ == old(self)@.after(PresenceEvent::Disconnected { addr }),
            action@ == if final(self)@.peers.len() == 0 && old(self).pipeline.is_present() {
                PipelineActionView::Stop
            } else {
                PipelineActionView::Nothing
            },
            !has_addr(final(self)@.peers, addr),
    {
        self.registry.remove(addr);
        if self.registry.is_empty() {
            self.pipeline.on_last_peer_gone()
        } else {
            PipelineAction::Nothing
        }
    }

    /// The engine reported that the pipeline did not start. The peers stay
    /// registered; the next connection tries again.
    pub fn on_start_failed(&mut self, failure: PipelineFailure)
        ensures
            final(self)@.peers == old(self)@.peers,
            final(self)@.destination is None,
    {
        self.pipeline.on_start_failed(failure);
    }

    /// What is done with a frame of kind `kind` from the peer at `sender`.
    /// A close frame goes nowhere. Every other frame goes to all peers but
    /// its sender, and a text frame is tried as an input command first.
    pub fn route_frame(&self, sender: PeerAddr, kind: FrameKind) -> (routing: FrameRouting)
        ensures
            routing.try_command == (kind == FrameKind::Text),
            routing.recipients@ == if kind == FrameKind::Close {
                Seq::<PeerAddr>::empty()
            } else {
                others(self@.peers, sender)
            },
    {
        match kind {
            FrameKind::Close => FrameRouting { try_command: false, recipients: Vec::new() },
            FrameKind::Text => FrameRouting {
                try_command: true,
                recipients: self.registry.recipients(sender),
            },
            _ => FrameRouting { try_command: false, recipients: self.registry.recipients(sender) },
        }
    }

    /// The connected peers with the times at which they came, for display.
    pub fn peers(&self) -> (records: Vec<PeerRecord>)
        ensures
            records@ == self@.peers,
            unique_addresses(records@),
    {
        self.registry.snapshot()
    }
}

} // verus!
