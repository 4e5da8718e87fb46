use std::sync::atomic::{AtomicBool, Ordering};
use std::sync::{Arc, Mutex};

use servo_media_dummy::registry::StreamRegistry;
use servo_media_dummy::stream::{DummyMediaStream, MediaStream, MediaStreamId, MediaStreamType};

/// A stream that says when it was destroyed.
struct Witness {
    id: Option<MediaStreamId>,
    kind: MediaStreamType,
    destroyed: Arc<AtomicBool>,
}

impl Witness {
    fn new(kind: MediaStreamType) -> (Witness, Arc<AtomicBool>) {
        let destroyed = Arc::new(AtomicBool::new(false));
        (Witness { id: None, kind, destroyed: destroyed.clone() }, destroyed)
    }
}

impl MediaStream for Witness {
    fn stream_id(&self) -> Option<MediaStreamId> {
        self.id
    }
    fn kind(&self) -> MediaStreamType {
        self.kind
    }
    fn with_id(mut self, id: MediaStreamId) -> Self {
        self.id = Some(id);
        self
    }
    fn lemma_with_id(self, _: MediaStreamId) {}
    fn set_id(&mut self, id: MediaStreamId) {
        self.id = Some(id);
    }
    fn id(&self) -> Option<MediaStreamId> {
        self.id
    }
    fn ty(&self) -> MediaStreamType {
        self.kind
    }
}

impl Drop for Witness {
    fn drop(&mut self) {
        self.destroyed.store(true, Ordering::SeqCst);
    }
}

#[test]
fn new_registry_is_empty() {
    let registry: StreamRegistry<DummyMediaStream> = StreamRegistry::new();
    assert_eq!(registry.len(), 0);
    assert!(registry.has_capacity());
    assert!(registry.look_up(&MediaStreamId(0)).is_none());
    assert!(!registry.contains(&MediaStreamId(0)));
}

#[test]
fn identifiers_count_up_from_zero() {
    let mut registry: StreamRegistry<DummyMediaStream> = StreamRegistry::new();
    assert_eq!(registry.register(DummyMediaStream::new(MediaStreamType::Audio)), MediaStreamId(0));
    assert_eq!(registry.register(DummyMediaStream::new(MediaStreamType::Audio)), MediaStreamId(1));
    assert_eq!(registry.register(DummyMediaStream::new(MediaStreamType::Audio)), MediaStreamId(2));
    assert_eq!(registry.len(), 3);
    assert_eq!(MediaStreamId(2).id(), 2);
}

#[test]
fn register_then_look_up_finds_the_stream() {
    let mut registry: StreamRegistry<Witness> = StreamRegistry::new();
    let (audio, _) = Witness::new(MediaStreamType::Audio);
    let (video, _) = Witness::new(MediaStreamType::Video);
    let audio_id = registry.register(audio);
    let video_id = registry.register(video);
    assert_ne!(audio_id, video_id);
    let found = registry.look_up(&audio_id).expect("registered");
    assert_eq!(found.ty(), MediaStreamType::Audio);
    assert_eq!(found.id(), Some(audio_id));
    let found = registry.look_up(&video_id).expect("registered");
    assert_eq!(found.ty(), MediaStreamType::Video);
    assert_eq!(found.id(), Some(video_id));
    assert!(registry.contains(&audio_id));
}

#[test]
fn look_up_stays_valid_while_others_come_and_go() {
    let mut registry: StreamRegistry<DummyMediaStream> = StreamRegistry::new();
    let kept = registry.register(DummyMediaStream::new(MediaStreamType::Audio));
    let other = registry.register(DummyMediaStream::new(MediaStreamType::Audio));
    registry.unregister(&other);
    let third = registry.register(DummyMediaStream::new(MediaStreamType::Audio));
    assert_eq!(registry.look_up(&kept).expect("still registered").id(), Some(kept));
    assert!(registry.look_up(&other).is_none());
    assert!(registry.look_up(&third).is_some());
    assert_eq!(registry.len(), 2);
}

#[test]
fn look_up_of_unknown_id_is_none() {
    let mut registry: StreamRegistry<DummyMediaStream> = StreamRegistry::new();
    let id = registry.register(DummyMediaStream::new(MediaStreamType::Audio));
    assert!(registry.look_up(&MediaStreamId(id.id() + 1)).is_none());
    assert!(registry.look_up(&MediaStreamId(u64::MAX)).is_none());
}

#[test]
fn unregister_then_look_up_is_none() {
    let mut registry: StreamRegistry<DummyMediaStream> = StreamRegistry::new();
    let id = registry.register(DummyMediaStream::new(MediaStreamType::Audio));
    assert!(registry.look_up(&id).is_some());
    registry.unregister(&id);
    assert!(registry.look_up(&id).is_none());
    assert!(!registry.contains(&id));
    assert_eq!(registry.len(), 0);
}

#[test]
fn second_unregister_changes_nothing() {
    let mut registry: StreamRegistry<DummyMediaStream> = StreamRegistry::new();
    let gone = registry.register(DummyMediaStream::new(MediaStreamType::Audio));
    let kept = registry.register(DummyMediaStream::new(MediaStreamType::Audio));
    registry.unregister(&gone);
    registry.unregister(&gone);
    assert_eq!(registry.len(), 1);
    assert!(registry.look_up(&kept).is_some());
    registry.unregister(&MediaStreamId(99));
    assert_eq!(registry.len(), 1);
}

#[test]
fn unregistered_id_is_never_handed_out_again() {
    let mut registry: StreamRegistry<DummyMediaStream> = StreamRegistry::new();
    let first = registry.register(DummyMediaStream::new(MediaStreamType::Audio));
    registry.unregister(&first);
    let second = registry.register(DummyMediaStream::new(MediaStreamType::Audio));
    assert_ne!(first, second);
    assert_eq!(second, MediaStreamId(1));
    assert!(registry.look_up(&first).is_none());
}

#[test]
fn many_callers_get_distinct_ids_and_lose_nothing() {
    let registry: Arc<Mutex<StreamRegistry<DummyMediaStream>>> =
        Arc::new(Mutex::new(StreamRegistry::new()));
    let callers: Vec<Arc<Mutex<StreamRegistry<DummyMediaStream>>>> =
        (0..4).map(|_| registry.clone()).collect();
    let mut ids: Vec<MediaStreamId> = Vec::new();
    for round in 0..25 {
        for caller in callers.iter() {
            let id = caller.lock().unwrap().register(DummyMediaStream::new(MediaStreamType::Audio));
            assert_eq!(id.id() / 4, round);
            ids.push(id);
        }
    }
    assert_eq!(registry.lock().unwrap().len(), 100);
    let mut raw: Vec<u64> = ids.iter().map(|id| id.id()).collect();
    raw.sort();
    raw.dedup();
    assert_eq!(raw.len(), 100);
    for id in ids.iter() {
        assert!(registry.lock().unwrap().look_up(id).is_some());
    }
}

#[test]
fn every_look_up_is_one_more_handle_to_the_same_stream() {
    let mut registry: StreamRegistry<DummyMediaStream> = StreamRegistry::new();
    let id = registry.register(DummyMediaStream::new(MediaStreamType::Audio));
    let first = registry.look_up(&id).expect("registered");
    assert_eq!(Arc::strong_count(&first), 2);
    let second = registry.look_up(&id).expect("registered");
    assert!(Arc::ptr_eq(&first, &second));
    assert_eq!(Arc::strong_count(&first), 3);
    drop(second);
    assert_eq!(Arc::strong_count(&first), 2);
}

#[test]
fn looked_up_handle_keeps_the_stream_alive() {
    let mut registry: StreamRegistry<Witness> = StreamRegistry::new();
    let (stream, destroyed) = Witness::new(MediaStreamType::Audio);
    let id = registry.register(stream);
    let first_handle = registry.look_up(&id).expect("registered");
    let looked_up = registry.look_up(&id).expect("registered");
    drop(first_handle);
    assert!(!destroyed.load(Ordering::SeqCst));
    registry.unregister(&id);
    assert!(registry.look_up(&id).is_none());
    assert!(!destroyed.load(Ordering::SeqCst));
    assert_eq!(looked_up.id(), Some(id));
    assert_eq!(Arc::strong_count(&looked_up), 1);
    drop(looked_up);
    assert!(destroyed.load(Ordering::SeqCst));
}

#[test]
fn unregistering_the_last_holder_destroys_the_stream() {
    let mut registry: StreamRegistry<Witness> = StreamRegistry::new();
    let (stream, destroyed) = Witness::new(MediaStreamType::Video);
    let id = registry.register(stream);
    assert!(!destroyed.load(Ordering::SeqCst));
    registry.unregister(&id);
    assert!(destroyed.load(Ordering::SeqCst));
}

#[test]
fn dummy_stream_keeps_its_kind_and_takes_its_id() {
    let mut stream = DummyMediaStream::new(MediaStreamType::Audio);
    assert_eq!(stream.id(), None);
    assert_eq!(stream.ty(), MediaStreamType::Audio);
    stream.set_id(MediaStreamId(7));
    assert_eq!(stream.id(), Some(MediaStreamId(7)));
    assert_eq!(stream.ty(), MediaStreamType::Audio);
    let mut stream = DummyMediaStream::new(MediaStreamType::Video);
    stream.set_id(MediaStreamId(8));
    assert_eq!(stream.id(), Some(MediaStreamId(8)));
    assert_eq!(stream.ty(), MediaStreamType::Video);
}
