use std::sync::atomic::{AtomicUsize, Ordering};
use std::sync::mpsc;
use std::sync::Arc;

use boxfnonce::SendBoxFnOnce;
use servo_media_dummy::backend::{
    Constrain, ConstrainRange, DummyBackend, DummyMediaOutput, MediaTrackConstraintSet,
    SupportsMediaType,
};
use servo_media_dummy::block::{BlockFormat, Chunk};
use servo_media_dummy::context::{AudioContext, AudioContextOptions, ClientContextId};
use servo_media_dummy::decoder::{
    AudioDecoderError, AudioDecoderEvent, AudioDecoderOptions, DummyAudioDecoder,
};
use servo_media_dummy::node::AudioNodeEngine;
use servo_media_dummy::player::{DummyPlayer, StreamType};
use servo_media_dummy::registry::StreamRegistry;
use servo_media_dummy::render::{AudioRenderThreadMsg, Delivery, RenderAction, RenderState};
use servo_media_dummy::sink::{AudioSink, DummyAudioSink};
use servo_media_dummy::stream::{DummyMediaStream, MediaStream, MediaStreamId, MediaStreamType};
use servo_media_dummy::webrtc::{
    BundlePolicy, DummyWebRtcController, IceCandidate, InternalEvent, SdpType, SessionDescription,
};

/// A node that is never put into a graph.
struct Absent;

impl AudioNodeEngine for Absent {
    type Accumulator = f64;
    type Volume = f64;

    fn process(&self, _: &mut [u8], _: &mut f64, _: u32, _: u32, _: u32, _: &f64) {}
}

fn dummy_context() -> AudioContext<DummyAudioSink, Absent> {
    let (sender, _receiver) = mpsc::channel();
    DummyBackend::init().create_audio_context(
        &ClientContextId::build(4, 2),
        AudioContextOptions::default(),
        sender,
    )
}

#[test]
fn start_then_shutdown_leaks_no_registration() {
    let backend = DummyBackend::init();
    let mut registry: StreamRegistry<DummyMediaStream> = StreamRegistry::new();
    backend.create_audiostream(&mut registry);
    let before = registry.len();
    let mut ctx = dummy_context();
    assert_eq!(ctx.node_count(), 0);
    assert_eq!(ctx.start(), Ok(()));
    assert_eq!(ctx.state(), RenderState::Running);
    assert_eq!(ctx.shutdown(), Ok(()));
    assert_eq!(ctx.state(), RenderState::Terminated);
    assert_eq!(ctx.next_action(), RenderAction::Exit);
    assert_eq!(registry.len(), before);
    assert_eq!(before, 1);
}

#[test]
fn input_stream_without_capture_devices_is_none() {
    let backend = DummyBackend::init();
    let mut registry: StreamRegistry<DummyMediaStream> = StreamRegistry::new();
    let empty = MediaTrackConstraintSet::default();
    assert_eq!(backend.create_audioinput_stream(&mut registry, empty), None);
    assert_eq!(backend.create_videoinput_stream(&mut registry, empty), None);
    assert_eq!(registry.len(), 0);
    let strict = MediaTrackConstraintSet {
        width: Some(Constrain::Value(640)),
        height: Some(Constrain::Range(ConstrainRange { min: Some(1), max: None, ideal: Some(480) })),
        frame_rate: None,
        sample_rate: Some(Constrain::Value(44100)),
    };
    assert_eq!(backend.create_audioinput_stream(&mut registry, strict), None);
    assert_eq!(backend.create_videoinput_stream(&mut registry, strict), None);
    assert_eq!(registry.len(), 0);
    assert_eq!(backend.create_audiostream(&mut registry), MediaStreamId(0));
}

#[test]
fn empty_constraint_set_constrains_nothing() {
    let empty = MediaTrackConstraintSet::default();
    assert_eq!(
        empty,
        MediaTrackConstraintSet { width: None, height: None, frame_rate: None, sample_rate: None }
    );
}

#[test]
fn player_has_nothing_buffered_after_data_and_end_of_stream() {
    let backend = DummyBackend::init();
    let player = backend.create_player(&ClientContextId::build(1, 1), StreamType::Seekable);
    assert_eq!(player.push_data(vec![0x1a, 0x45, 0xdf, 0xa3, 0, 1, 2, 3]), Ok(()));
    assert_eq!(player.end_of_stream(), Ok(()));
    assert_eq!(player.buffered(), Ok(vec![]));
}

#[test]
fn player_accepts_every_command() {
    let player: DummyPlayer = DummyBackend::init().create_player(&ClientContextId::build(1, 1), StreamType::Stream);
    assert_eq!(player.play(), Ok(()));
    assert_eq!(player.pause(), Ok(()));
    assert_eq!(player.stop(), Ok(()));
    assert_eq!(player.seek(1500), Ok(()));
    assert_eq!(player.set_mute(true), Ok(()));
    assert_eq!(player.set_volume(500), Ok(()));
    assert_eq!(player.set_input_size(1 << 20), Ok(()));
    assert_eq!(player.set_rate(2000), Ok(()));
    assert_eq!(player.set_stream(&MediaStreamId(3), true), Ok(()));
    assert_eq!(player.set_audio_track_enabled(0, false), Ok(()));
    assert_eq!(player.set_video_track_enabled(-1, true), Ok(()));
    assert!(!player.render_use_gl());
    assert_eq!(player.get_id(), 0);
    assert_eq!(player.mute(true), Ok(()));
    assert_eq!(player.buffered(), Ok(vec![]));
}

#[test]
fn created_streams_are_registered_under_fresh_ids() {
    let backend = DummyBackend::init();
    let mut registry: StreamRegistry<DummyMediaStream> = StreamRegistry::new();
    let audio = backend.create_audiostream(&mut registry);
    let video = backend.create_videostream(&mut registry);
    assert_eq!(audio, MediaStreamId(0));
    assert_eq!(video, MediaStreamId(1));
    assert_eq!(registry.len(), 2);
    let stream = registry.look_up(&audio).expect("registered");
    assert_eq!(stream.id(), Some(audio));
    assert_eq!(stream.ty(), MediaStreamType::Audio);
    let stream = registry.look_up(&video).expect("registered");
    assert_eq!(stream.id(), Some(video));
    assert_eq!(stream.ty(), MediaStreamType::Video);
}

#[test]
fn backend_plays_no_media_type() {
    let backend = DummyBackend::init();
    assert_eq!(backend.can_play_type("audio/ogg"), SupportsMediaType::No);
    assert_eq!(backend.can_play_type("video/mp4; codecs=\"avc1.42E01E\""), SupportsMediaType::No);
    assert_eq!(backend.can_play_type(""), SupportsMediaType::No);
}

#[test]
fn audio_context_of_the_backend_is_created_and_empty() {
    let ctx = dummy_context();
    assert_eq!(ctx.id(), 0);
    assert_eq!(ctx.client_context_id(), ClientContextId(4, 2));
    assert_eq!(ctx.format(), BlockFormat { sample_rate: 44100, channels: 2, block_len: 1024 });
    assert_eq!(ctx.state(), RenderState::Created);
    assert_eq!(ctx.node_count(), 0);
    assert_eq!(*ctx.sink(), DummyAudioSink);
}

#[test]
fn dummy_sink_always_has_enough_data_so_nothing_is_rendered() {
    let mut ctx = dummy_context();
    assert_eq!(ctx.start(), Ok(()));
    assert_eq!(ctx.next_action(), RenderAction::Render);
    assert_eq!(ctx.render_iteration(), Ok(Delivery::Backpressure));
    assert_eq!(ctx.pause(), Ok(()));
    assert_eq!(ctx.resume(), Ok(()));
    assert_eq!(ctx.stop(), Ok(()));
    assert_eq!(ctx.state(), RenderState::Stopped);
    assert_eq!(ctx.render_iteration(), Ok(Delivery::Discarded));
}

#[test]
fn dummy_sink_accepts_every_command() {
    let (sender, receiver) = mpsc::channel::<AudioRenderThreadMsg>();
    let mut sink = DummyBackend::make_sink().expect("never fails");
    assert_eq!(sink.init(48000, sender), Ok(()));
    assert_eq!(sink.play(), Ok(()));
    assert!(sink.has_enough_data());
    assert_eq!(sink.push_data(Chunk::new(vec![1, 2, 3], 1, 48000)), Ok(()));
    assert!(sink.has_enough_data());
    assert_eq!(sink.stop(), Ok(()));
    assert!(receiver.try_recv().is_err());
}

#[test]
fn dummy_decoder_reports_one_error_and_nothing_else() {
    let decoder: DummyAudioDecoder = DummyBackend::make_decoder();
    let failed = vec![AudioDecoderEvent::Error(AudioDecoderError::Backend)];
    assert_eq!(decoder.decode(vec![b'O', b'g', b'g', b'S'], None), failed);
    assert_eq!(decoder.decode(vec![], Some(AudioDecoderOptions { sample_rate: 44100 })), failed);
    let events = decoder.decode(vec![0; 4096], None);
    assert_eq!(events.len(), 1);
    assert!(!events.iter().any(|event| matches!(event, AudioDecoderEvent::Progress(_, _))));
    assert!(!events.contains(&AudioDecoderEvent::Eos));
}

#[test]
fn dummy_output_takes_any_stream() {
    let mut output: DummyMediaOutput = DummyBackend::init().create_stream_output();
    output.add_stream(&MediaStreamId(0));
    output.add_stream(&MediaStreamId(12));
    assert_eq!(output, DummyMediaOutput);
}

fn description(type_: SdpType) -> SessionDescription {
    SessionDescription { type_, sdp: String::from("v=0") }
}

#[test]
fn controller_accepts_every_operation() {
    let mut controller: DummyWebRtcController = DummyBackend::init().create_webrtc();
    assert_eq!(controller.configure("stun://stun.example.org", BundlePolicy::MaxBundle), Ok(()));
    assert_eq!(
        controller.add_ice_candidate(IceCandidate { sdp_mline_index: 0, candidate: String::from("candidate:0") }),
        Ok(())
    );
    assert_eq!(controller.add_stream(&MediaStreamId(1)), Ok(()));
    assert_eq!(controller.internal_event(InternalEvent::OnNegotiationNeeded), Ok(()));
    assert_eq!(
        controller.internal_event(InternalEvent::OnAddStream(MediaStreamId(1), MediaStreamType::Video)),
        Ok(())
    );
    controller.quit();
    assert_eq!(controller, DummyBackend::construct_webrtc_controller());
}

#[test]
fn controller_drops_continuations_without_calling_them() {
    let calls = Arc::new(AtomicUsize::new(0));
    let mut controller = DummyBackend::construct_webrtc_controller();

    let seen = calls.clone();
    let done: SendBoxFnOnce<'static, ()> = SendBoxFnOnce::new(move || {
        seen.fetch_add(1, Ordering::SeqCst);
    });
    assert_eq!(controller.set_remote_description(description(SdpType::Offer), done), Ok(()));

    let seen = calls.clone();
    let done: SendBoxFnOnce<'static, ()> = SendBoxFnOnce::new(move || {
        seen.fetch_add(1, Ordering::SeqCst);
    });
    assert_eq!(controller.set_local_description(description(SdpType::Answer), done), Ok(()));

    let seen = calls.clone();
    let offer: SendBoxFnOnce<'static, (SessionDescription,)> =
        SendBoxFnOnce::new(move |_: SessionDescription| {
            seen.fetch_add(1, Ordering::SeqCst);
        });
    assert_eq!(controller.create_offer(offer), Ok(()));

    let seen = calls.clone();
    let answer: SendBoxFnOnce<'static, (SessionDescription,)> =
        SendBoxFnOnce::new(move |_: SessionDescription| {
            seen.fetch_add(1, Ordering::SeqCst);
        });
    assert_eq!(controller.create_answer(answer), Ok(()));

    assert_eq!(calls.load(Ordering::SeqCst), 0);
    assert_eq!(Arc::strong_count(&calls), 1);
}
