//! Stream identity: identifiers, stream kinds and what every stream offers.
use vstd::prelude::*;

verus! {

/// The kind of media a stream carries.
#[derive(Clone, Copy, Debug, PartialEq, Eq, Structural)]
pub enum MediaStreamType {
    Audio,
    Video,
}

/// An opaque token that identifies one registered stream.
///
/// Tokens are compared and hashed, nothing else. A registry hands them out
/// in the order of registration and never hands one out twice.
#[derive(Clone, Copy, Debug, PartialEq, Eq, Hash, Structural)]
pub struct MediaStreamId(pub u64);

impl MediaStreamId {
    /// Returns the number behind the token.
    pub fn id(self) -> (raw: u64)
        ensures
            raw == self.0,
    {
        self.0
    }
}

/// What a registry needs of a stream: a kind that never changes and an
/// identifier that the registry assigns.
pub trait MediaStream: Sized {
    /// The identifier the stream carries, if one was assigned.
    spec fn stream_id(&self) -> Option<MediaStreamId>;

    /// The kind of media the stream carries.
    spec fn kind(&self) -> MediaStreamType;

    /// The same stream carrying `id`.
    spec fn with_id(self, id: MediaStreamId) -> Self;

    /// Assigning an identifier changes the identifier and leaves the kind.
    proof fn lemma_with_id(self, id: MediaStreamId)
        ensures
            self.with_id(id).stream_id() == Some(id),
            self.with_id(id).kind() == self.kind(),
    ;

    /// Assigns `id` to the stream.
    fn set_id(&mut self, id: MediaStreamId)
        ensures
            *final(self) == old(self).with_id(id),
    ;

    /// Returns the identifier the stream carries, if one was assigned.
    fn id(&self) -> (id: Option<MediaStreamId>)
        ensures
            id == self.stream_id(),
    ;

    /// Returns the kind of media the stream carries.
    fn ty(&self) -> (kind: MediaStreamType)
        ensures
            kind == self.kind(),
    ;
}

/// A stream that carries no media: only its kind and the identifier it
/// was registered under.
pub struct DummyMediaStream {
    id: Option<MediaStreamId>,
    kind: MediaStreamType,
}

impl DummyMediaStream {
    /// The stream of kind `kind` that no registry has seen yet.
    pub closed spec fn unregistered(kind: MediaStreamType) -> DummyMediaStream {
        DummyMediaStream { id: None, kind }
    }

    /// The stream that no registry has seen carries its kind and no
    /// identifier.
    pub proof fn lemma_unregistered(kind: MediaStreamType)
        ensures
            DummyMediaStream::unregistered(kind).stream_id() is None,
            DummyMediaStream::unregistered(kind).kind() == kind,
    {
    }

    /// A stream of kind `kind` that no registry has seen yet.
    pub fn new(kind: MediaStreamType) -> (stream: DummyMediaStream)
        ensures
            stream == DummyMediaStream::unregistered(kind),
    {
        DummyMediaStream { id: None, kind }
    }
}

impl MediaStream for DummyMediaStream {
    closed spec fn stream_id(&self) -> Option<MediaStreamId> {
        self.id
    }

    closed spec fn kind(&self) -> MediaStreamType {
        self.kind
    }

    closed spec fn with_id(self, id: MediaStreamId) -> DummyMediaStream {
        DummyMediaStream { id: Some(id), kind: self.kind }
    }

    proof fn lemma_with_id(self, id: MediaStreamId) {
    }

    fn set_id(&mut self, id: MediaStreamId) {
        self.id = Some(id);
    }

    fn id(&self) -> (id: Option<MediaStreamId>) {
        self.id
    }

    fn ty(&self) -> (kind: MediaStreamType) {
        self.kind
    }
}

} // verus!
