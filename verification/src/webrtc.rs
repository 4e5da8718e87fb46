//! The peer-session controller of a backend without a network stack.
use boxfnonce::SendBoxFnOnce;
use vstd::prelude::*;
use crate::stream::MediaStreamId;
use crate::stream::MediaStreamType;

verus! {

/// `boxfnonce::SendBoxFnOnce`: a boxed function that can be sent to another
/// thread and called at most once. Nothing is claimed of it; a continuation
/// is only carried, and dropped by whoever does not call it.
#[verifier::external_type_specification]
#[verifier::external_body]
#[verifier::reject_recursive_types(Arguments)]
#[verifier::reject_recursive_types(Result)]
pub struct ExSendBoxFnOnce<'a, Arguments, Result>(SendBoxFnOnce<'a, Arguments, Result>);

/// How media tracks are bundled onto transports.
#[derive(Clone, Copy, Debug, PartialEq, Eq, Structural)]
pub enum BundlePolicy {
    Balanced,
    MaxCompat,
    MaxBundle,
}

/// The role of a session description in a negotiation.
#[derive(Clone, Copy, Debug, PartialEq, Eq, Structural)]
pub enum SdpType {
    Answer,
    Offer,
    Pranswer,
    Rollback,
}

/// One side's description of a session.
#[derive(Debug, PartialEq, Eq)]
pub struct SessionDescription {
    pub type_: SdpType,
    pub sdp: String,
}

/// A candidate address for a connection.
#[derive(Debug, PartialEq, Eq)]
pub struct IceCandidate {
    pub sdp_mline_index: u32,
    pub candidate: String,
}

/// The ways in which a controller fails.
#[derive(Clone, Copy, Debug, PartialEq, Eq, Structural)]
pub enum WebRtcError {
    Backend,
}

/// What a controller operation returns.
pub type WebrtcResult = Result<(), WebRtcError>;

/// What a session reports to its controller.
#[derive(Debug, PartialEq, Eq)]
pub enum InternalEvent {
    OnNegotiationNeeded,
    OnIceCandidate(IceCandidate),
    OnAddStream(MediaStreamId, MediaStreamType),
    UpdateSignalingState,
    UpdateGatheringState,
    UpdateIceConnectionState,
}

/// A controller with no session behind it: every operation succeeds and
/// does nothing. Continuations handed to it are dropped without being called.
#[derive(Clone, Copy, Debug, PartialEq, Eq, Structural)]
pub struct DummyWebRtcController;

impl DummyWebRtcController {
    /// Accepts a STUN server and a bundle policy, and ignores both.
    pub fn configure(&mut self, stun_server: &str, policy: BundlePolicy) -> (result: WebrtcResult)
        ensures
            result == Ok::<(), WebRtcError>(()),
            *final(self) == *old(self),
    {
        Ok(())
    }

    /// Accepts the remote description. `done` is dropped, never called.
    pub fn set_remote_description(
        &mut self,
        description: SessionDescription,
        done: SendBoxFnOnce<'static, ()>,
    ) -> (result: WebrtcResult)
        ensures
            result == Ok::<(), WebRtcError>(()),
            *final(self) == *old(self),
    {
        Ok(())
    }

    /// Accepts the local description. `done` is dropped, never called.
    pub fn set_local_description(
        &mut self,
        description: SessionDescription,
        done: SendBoxFnOnce<'static, ()>,
    ) -> (result: WebrtcResult)
        ensures
            result == Ok::<(), WebRtcError>(()),
            *final(self) == *old(self),
    {
        Ok(())
    }

    /// Accepts a candidate, and ignores it.
    pub fn add_ice_candidate(&mut self, candidate: IceCandidate) -> (result: WebrtcResult)
        ensures
            result == Ok::<(), WebRtcError>(()),
            *final(self) == *old(self),
    {
        Ok(())
    }

    /// Makes no offer. `done` is dropped, never called.
    pub fn create_offer(&mut self, done: SendBoxFnOnce<'static, (SessionDescription,)>) -> (result:
        WebrtcResult)
        ensures
            result == Ok::<(), WebRtcError>(()),
            *final(self) == *old(self),
    {
        Ok(())
    }

    /// Makes no answer. `done` is dropped, never called.
    pub fn create_answer(&mut self, done: SendBoxFnOnce<'static, (SessionDescription,)>) -> (result:
        WebrtcResult)
        ensures
            result == Ok::<(), WebRtcError>(()),
            *final(self) == *old(self),
    {
        Ok(())
    }

    /// Accepts a stream, and attaches nothing.
    pub fn add_stream(&mut self, stream: &MediaStreamId) -> (result: WebrtcResult)
        ensures
            result == Ok::<(), WebRtcError>(()),
            *final(self) == *old(self),
    {
        Ok(())
    }

    /// Accepts an event of the session, and ignores it.
    pub fn internal_event(&mut self, event: InternalEvent) -> (result: WebrtcResult)
        ensures
            result == Ok::<(), WebRtcError>(()),
            *final(self) == *old(self),
    {
        Ok(())
    }

    /// Ends the session: there is none, so nothing happens.
    pub fn quit(&mut self)
        ensures
            *final(self) == *old(self),
    {
    }
}

} // verus!
