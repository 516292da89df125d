//! The kinds of failure and how far each one reaches.

use crate::codec::DecodeError;
use crate::pipeline::PipelineFailure;
use vstd::prelude::*;

verus! {

/// What can go wrong in the host.
#[derive(Clone, Copy, Debug, PartialEq, Eq, Structural)]
pub enum Failure {
    /// A server could not bind its port.
    BindFailure,
    /// A connection's handshake did not complete.
    HandshakeFailure,
    /// A packet of the wrong length.
    MalformedPacket,
    /// A packet with an unknown discriminant.
    UnknownCommand,
    /// The pointer or the virtual controller refused a call.
    ActuationFailure,
    /// The media engine rejected the pipeline's description.
    PipelineParseFailure,
    /// The media engine refused a change of state.
    PipelineStateFailure,
}

/// What a failure ends.
#[derive(Clone, Copy, Debug, PartialEq, Eq, Structural)]
pub enum Reach {
    /// The process: it cannot start without what failed.
    Process,
    /// The one connection on which it happened.
    Connection,
    /// The one packet that caused it; the connection goes on.
    Packet,
    /// Nothing: it is noted, and the next command or connection tries
    /// again.
    Nothing,
}

impl Failure {
    /// The kind of a refusal to decode. A text that is no command counts
    /// with the packets of the wrong length.
    pub open spec fn spec_of_decode_error(error: DecodeError) -> Failure {
        match error {
            DecodeError::MalformedPacket { .. } => Failure::MalformedPacket,
            DecodeError::UnknownCommand { .. } => Failure::UnknownCommand,
            DecodeError::MalformedText => Failure::MalformedPacket,
        }
    }

    #[verifier::when_used_as_spec(spec_of_decode_error)]
    pub fn of_decode_error(error: DecodeError) -> (failure: Failure)
        ensures
            failure == Failure::spec_of_decode_error(error),
            failure.spec_reach() == Reach::Packet,
    {
        match error {
            DecodeError::MalformedPacket { .. } => Failure::MalformedPacket,
            DecodeError::UnknownCommand { .. } => Failure::UnknownCommand,
            DecodeError::MalformedText => Failure::MalformedPacket,
        }
    }

    /// The kind of a pipeline that did not start.
    pub open spec fn spec_of_pipeline_failure(failure: PipelineFailure) -> Failure {
        match failure {
            PipelineFailure::PipelineParseFailure => Failure::PipelineParseFailure,
            PipelineFailure::PipelineStateFailure => Failure::PipelineStateFailure,
        }
    }

    #[verifier::when_used_as_spec(spec_of_pipeline_failure)]
    pub fn of_pipeline_failure(failure: PipelineFailure) -> (kind: Failure)
        ensures
            kind == Failure::spec_of_pipeline_failure(failure),
            kind.spec_reach() == Reach::Nothing,
    {
        match failure {
            PipelineFailure::PipelineParseFailure => Failure::PipelineParseFailure,
            PipelineFailure::PipelineStateFailure => Failure::PipelineStateFailure,
        }
    }

    pub open spec fn spec_reach(self) -> Reach {
        match self {
            Failure::BindFailure => Reach::Process,
            Failure::HandshakeFailure => Reach::Connection,
            Failure::MalformedPacket => Reach::Packet,
            Failure::UnknownCommand => Reach::Packet,
            Failure::ActuationFailure => Reach::Nothing,
            Failure::PipelineParseFailure => Reach::Nothing,
            Failure::PipelineStateFailure => Reach::Nothing,
        }
    }

    /// How far the failure reaches. Only a failure to acquire a resource
    /// at startup ends the process; no failure of a packet or a connection
    /// ends the loop that serves it.
    #[verifier::when_used_as_spec(spec_reach)]
    pub fn reach(self) -> (reach: Reach)
        ensures
            reach == self.spec_reach(),
    {
        match self {
            Failure::BindFailure => Reach::Process,
            Failure::HandshakeFailure => Reach::Connection,
            Failure::MalformedPacket => Reach::Packet,
            Failure::UnknownCommand => Reach::Packet,
            Failure::ActuationFailure => Reach::Nothing,
            Failure::PipelineParseFailure => Reach::Nothing,
            Failure::PipelineStateFailure => Reach::Nothing,
        }
    }

    /// The process ends on this failure.
    pub fn is_fatal(self) -> (fatal: bool)
        ensures
            fatal == (self == Failure::BindFailure),
            fatal == (self.spec_reach() == Reach::Process),
    {
        match self {
            Failure::BindFailure => true,
            _ => false,
        }
    }
}

} // verus!
