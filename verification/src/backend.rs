//! The backend factory of a machine without media devices.
//!
//! Every creation succeeds with an object that can be used on its own, and
//! no operation needs a device. What needs one, capture, yields nothing.
use std::sync::mpsc::Sender;
use vstd::prelude::*;
use crate::context::AudioContext;
use crate::context::AudioContextOptions;
use crate::context::ClientContextId;
use crate::decoder::DummyAudioDecoder;
use crate::graph::GraphModel;
use crate::node::AudioNodeEngine;
use crate::player::DummyPlayer;
use crate::player::StreamType;
use crate::registry::StreamRegistry;
use crate::render::AudioRenderThreadMsg;
use crate::render::RenderState;
use crate::sink::AudioSink;
use crate::sink::AudioSinkError;
use crate::sink::DummyAudioSink;
use crate::stream::DummyMediaStream;
use crate::stream::MediaStreamId;
use crate::stream::MediaStreamType;
use crate::webrtc::DummyWebRtcController;

verus! {

/// How sure a backend is that it can play a media type.
#[derive(Clone, Copy, Debug, PartialEq, Eq, Structural)]
pub enum SupportsMediaType {
    Maybe,
    No,
    Probably,
}

/// The bounds and the preferred value of one constrained setting.
#[derive(Clone, Copy, Debug, PartialEq, Eq, Structural)]
pub struct ConstrainRange {
    pub min: Option<u32>,
    pub max: Option<u32>,
    pub ideal: Option<u32>,
}

/// A constraint on one setting of a capture device.
#[derive(Clone, Copy, Debug, PartialEq, Eq, Structural)]
pub enum Constrain {
    Value(u32),
    Range(ConstrainRange),
}

/// What a caller asks of a capture device. A set with no constraint in it
/// asks nothing.
#[derive(Clone, Copy, Debug, PartialEq, Eq, Structural)]
pub struct MediaTrackConstraintSet {
    pub width: Option<Constrain>,
    pub height: Option<Constrain>,
    pub frame_rate: Option<Constrain>,
    pub sample_rate: Option<Constrain>,
}

impl MediaTrackConstraintSet {
    /// The set constrains nothing.
    pub open spec fn is_empty(self) -> bool {
        &&& self.width is None
        &&& self.height is None
        &&& self.frame_rate is None
        &&& self.sample_rate is None
    }
}

impl Default for MediaTrackConstraintSet {
    /// The set that constrains nothing.
    fn default() -> (set: MediaTrackConstraintSet)
        ensures
            set.is_empty(),
    {
        MediaTrackConstraintSet { width: None, height: None, frame_rate: None, sample_rate: None }
    }
}

/// An output that takes streams and plays none.
#[derive(Clone, Copy, Debug, PartialEq, Eq, Structural)]
pub struct DummyMediaOutput;

impl DummyMediaOutput {
    /// Accepts a stream, and attaches nothing.
    pub fn add_stream(&mut self, stream: &MediaStreamId)
        ensures
            *final(self) == *old(self),
    {
    }
}

/// The backend of a machine without media devices.
#[derive(Clone, Copy, Debug, PartialEq, Eq, Structural)]
pub struct DummyBackend;

impl DummyBackend {
    /// Makes the backend.
    pub fn init() -> (backend: DummyBackend)
        ensures
            backend == DummyBackend,
    {
        DummyBackend
    }

    /// Creates a stream of kind audio and registers it in `registry`.
    pub fn create_audiostream(&self, registry: &mut StreamRegistry<DummyMediaStream>) -> (id:
        MediaStreamId)
        requires
            old(registry)@.wf(),
            old(registry)@.issued < u64::MAX,
        ensures
            id == old(registry)@.next_id(),
            final(registry)@ == old(registry)@.register(DummyMediaStream::unregistered(
                MediaStreamType::Audio,
            )),
            final(registry)@.wf(),
    {
        registry.register(DummyMediaStream::new(MediaStreamType::Audio))
    }

    /// Creates a stream of kind video and registers it in `registry`.
    pub fn create_videostream(&self, registry: &mut StreamRegistry<DummyMediaStream>) -> (id:
        MediaStreamId)
        requires
            old(registry)@.wf(),
            old(registry)@.issued < u64::MAX,
        ensures
            id == old(registry)@.next_id(),
            final(registry)@ == old(registry)@.register(DummyMediaStream::unregistered(
                MediaStreamType::Video,
            )),
            final(registry)@.wf(),
    {
        registry.register(DummyMediaStream::new(MediaStreamType::Video))
    }

    /// Creates an output for streams.
    pub fn create_stream_output(&self) -> (output: DummyMediaOutput)
        ensures
            output == DummyMediaOutput,
    {
        DummyMediaOutput
    }

    /// Opens an audio capture device that meets `constraints`. There is no
    /// such device: the result is `None` and nothing is registered.
    pub fn create_audioinput_stream(
        &self,
        registry: &mut StreamRegistry<DummyMediaStream>,
        constraints: MediaTrackConstraintSet,
    ) -> (id: Option<MediaStreamId>)
        ensures
            id is None,
            *final(registry) == *old(registry),
    {
        None
    }

    /// Opens a video capture device that meets `constraints`. There is no
    /// such device: the result is `None` and nothing is registered.
    pub fn create_videoinput_stream(
        &self,
        registry: &mut StreamRegistry<DummyMediaStream>,
        constraints: MediaTrackConstraintSet,
    ) -> (id: Option<MediaStreamId>)
        ensures
            id is None,
            *final(registry) == *old(registry),
    {
        None
    }

    /// Creates a player for the owner `id`.
    pub fn create_player(&self, id: &ClientContextId, stream_type: StreamType) -> (player:
        DummyPlayer)
        ensures
            player == DummyPlayer,
    {
        DummyPlayer
    }

    /// Creates an audio context for the owner `id` around a fresh sink,
    /// which it initialises with `sender`. The context has the number zero.
    /// It starts in state `Created` with an empty graph and blocks shaped by
    /// `options`.
    pub fn create_audio_context<N: AudioNodeEngine>(
        &self,
        id: &ClientContextId,
        options: AudioContextOptions,
        sender: Sender<AudioRenderThreadMsg>,
    ) -> (context: AudioContext<DummyAudioSink, N>)
        ensures
            context.spec_id() == 0,
            context.spec_client_context_id() == *id,
            context.spec_format() == options.format(),
            context.spec_state() == RenderState::Created,
            !context.spec_drained(),
            context.spec_sink() == DummyAudioSink,
            context.spec_graph() == GraphModel::<N>::empty(),
            context.wf(),
    {
        let mut sink = DummyAudioSink;
        let _ = sink.init(options.sample_rate, sender);
        AudioContext::with_sink(0, id, sink, options)
    }

    /// Creates a peer-session controller.
    pub fn create_webrtc(&self) -> (controller: DummyWebRtcController)
        ensures
            controller == DummyWebRtcController,
    {
        DummyBackend::construct_webrtc_controller()
    }

    /// Says whether the backend can play `media_type`: it can play nothing.
    pub fn can_play_type(&self, media_type: &str) -> (support: SupportsMediaType)
        ensures
            support == SupportsMediaType::No,
    {
        SupportsMediaType::No
    }

    /// Makes an audio decoder.
    pub fn make_decoder() -> (decoder: DummyAudioDecoder)
        ensures
            decoder == DummyAudioDecoder,
    {
        DummyAudioDecoder
    }

    /// Makes an audio sink. Never fails.
    pub fn make_sink() -> (sink: Result<DummyAudioSink, AudioSinkError>)
        ensures
            sink == Ok::<DummyAudioSink, AudioSinkError>(DummyAudioSink),
    {
        Ok(DummyAudioSink)
    }

    /// Makes the controller behind `create_webrtc`.
    pub fn construct_webrtc_controller() -> (controller: DummyWebRtcController)
        ensures
            controller == DummyWebRtcController,
    {
        DummyWebRtcController
    }
}

} // verus!
