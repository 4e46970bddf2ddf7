//! Control requests sent by the supervisor and the acknowledgement each one
//! receives.

use vstd::prelude::*;

verus! {

/// A request delivered by the supervisor to a registered service.
#[derive(Clone, Copy, Debug, PartialEq, Eq, Structural)]
pub enum ControlRequest {
    Interrogate,
    Stop,
    Pause,
    Continue,
    Other,
}

/// The answer handed back to the supervisor for one request.
#[derive(Clone, Copy, Debug, PartialEq, Eq, Structural)]
pub enum ControlAck {
    NoError,
    NotImplemented,
}

/// The dispatch table: which acknowledgement each request receives.
pub open spec fn ack_of(request: ControlRequest) -> ControlAck {
    match request {
        ControlRequest::Interrogate => ControlAck::NoError,
        ControlRequest::Stop => ControlAck::NoError,
        ControlRequest::Pause => ControlAck::NotImplemented,
        ControlRequest::Continue => ControlAck::NotImplemented,
        ControlRequest::Other => ControlAck::NotImplemented,
    }
}

/// Answers one control request. The answer depends on the request alone.
pub fn acknowledge(request: ControlRequest) -> (ack: ControlAck)
    ensures
        ack == ack_of(request),
{
    match request {
        ControlRequest::Interrogate => ControlAck::NoError,
        ControlRequest::Stop => ControlAck::NoError,
        ControlRequest::Pause => ControlAck::NotImplemented,
        ControlRequest::Continue => ControlAck::NotImplemented,
        ControlRequest::Other => ControlAck::NotImplemented,
    }
}

} // verus!
