//! The stream registry: a table from identifiers to shared streams.
//!
//! A registry hands each registered stream a fresh identifier, keeps one
//! shared handle to it, and gives every look-up another handle to the same
//! stream. Identifiers count up from zero and are never handed out twice,
//! so an identifier that was unregistered stays unknown for good.
use std::collections::HashMap;
use std::sync::Arc;
use vstd::prelude::*;
use crate::stream::MediaStream;
use crate::stream::MediaStreamId;

verus! {

broadcast use vstd::std_specs::hash::group_hash_axioms;

/// What a registry holds, as mathematics: the registered streams by
/// identifier, and how many identifiers were handed out so far.
pub struct RegistryModel<S> {
    pub streams: Map<MediaStreamId, S>,
    pub issued: nat,
}

impl<S: MediaStream> RegistryModel<S> {
    /// The registry nothing was registered in.
    pub open spec fn empty() -> RegistryModel<S> {
        RegistryModel { streams: Map::empty(), issued: 0 }
    }

    /// Finitely many streams are registered, each under an identifier that
    /// was handed out, and each carries the identifier it is registered under.
    pub open spec fn wf(self) -> bool {
        &&& self.streams.dom().finite()
        &&& self.issued <= u64::MAX
        &&& forall|id: MediaStreamId| #[trigger]
            self.streams.contains_key(id) ==> id.0 < self.issued
                && self.streams[id].stream_id() == Some(id)
    }

    /// The identifier that the next registration gets.
    pub open spec fn next_id(self) -> MediaStreamId {
        MediaStreamId(self.issued as u64)
    }

    /// The registry after `stream` was registered.
    pub open spec fn register(self, stream: S) -> RegistryModel<S> {
        RegistryModel {
            streams: self.streams.insert(self.next_id(), stream.with_id(self.next_id())),
            issued: self.issued + 1,
        }
    }

    /// The registry after `id` was unregistered.
    pub open spec fn unregister(self, id: MediaStreamId) -> RegistryModel<S> {
        RegistryModel { streams: self.streams.remove(id), issued: self.issued }
    }

    /// The stream registered under `id`, if there is one.
    pub open spec fn look_up(self, id: MediaStreamId) -> Option<S> {
        if self.streams.contains_key(id) {
            Some(self.streams[id])
        } else {
            None
        }
    }

    /// How many streams are registered.
    pub open spec fn len(self) -> nat {
        self.streams.dom().len()
    }
}

/// One change to a registry.
pub enum RegistryOp<S> {
    Register(S),
    Unregister(MediaStreamId),
}

impl<S: MediaStream> RegistryModel<S> {
    /// The registry after one change.
    pub open spec fn apply(self, op: RegistryOp<S>) -> RegistryModel<S> {
        match op {
            RegistryOp::Register(stream) => self.register(stream),
            RegistryOp::Unregister(id) => self.unregister(id),
        }
    }

    /// The registry after the changes `ops`, first to last.
    pub open spec fn apply_all(self, ops: Seq<RegistryOp<S>>) -> RegistryModel<S>
        decreases ops.len(),
    {
        if ops.len() == 0 {
            self
        } else {
            self.apply(ops.first()).apply_all(ops.drop_first())
        }
    }

    /// The registry after the streams `streams` were registered, first to
    /// last.
    pub open spec fn register_all(self, streams: Seq<S>) -> RegistryModel<S>
        decreases streams.len(),
    {
        if streams.len() == 0 {
            self
        } else {
            self.register(streams.first()).register_all(streams.drop_first())
        }
    }

    /// The identifier that the `i`-th of the next registrations gets.
    pub open spec fn nth_next_id(self, i: int) -> MediaStreamId {
        MediaStreamId((self.issued + i) as u64)
    }

    /// Registration keeps a registry well formed, hands out an identifier
    /// that was never handed out before, and leaves every other entry alone.
    pub proof fn lemma_register(self, stream: S)
        requires
            self.wf(),
            self.issued < u64::MAX,
        ensures
            self.register(stream).wf(),
            !self.streams.contains_key(self.next_id()),
            self.register(stream).look_up(self.next_id()) == Some(stream.with_id(self.next_id())),
            self.register(stream).len() == self.len() + 1,
            forall|other: MediaStreamId|
                other != self.next_id() ==> self.register(stream).look_up(other) == self.look_up(
                    other,
                ),
    {
        stream.lemma_with_id(self.next_id());
    }

    /// Unregistration keeps a registry well formed, forgets the identifier,
    /// and leaves every other entry alone. On an identifier that is not
    /// registered it changes nothing.
    pub proof fn lemma_unregister(self, id: MediaStreamId)
        requires
            self.wf(),
        ensures
            self.unregister(id).wf(),
            self.unregister(id).look_up(id) is None,
            forall|other: MediaStreamId|
                other != id ==> self.unregister(id).look_up(other) == self.look_up(other),
            self.streams.contains_key(id) ==> self.unregister(id).len() + 1 == self.len(),
            !self.streams.contains_key(id) ==> self.unregister(id) == self,
    {
        if !self.streams.contains_key(id) {
            assert(self.streams.remove(id) =~= self.streams);
        }
    }

    /// Any run of changes that the identifiers suffice for keeps a registry
    /// well formed and only ever adds to the identifiers handed out.
    pub proof fn lemma_apply_all(self, ops: Seq<RegistryOp<S>>)
        requires
            self.wf(),
            self.issued + ops.len() <= u64::MAX,
        ensures
            self.apply_all(ops).wf(),
            self.issued <= self.apply_all(ops).issued <= self.issued + ops.len(),
        decreases ops.len(),
    {
        if ops.len() > 0 {
            match ops.first() {
                RegistryOp::Register(stream) => self.lemma_register(stream),
                RegistryOp::Unregister(id) => self.lemma_unregister(id),
            }
            self.apply(ops.first()).lemma_apply_all(ops.drop_first());
        }
    }

    /// A registered stream is found under its identifier for as long as
    /// that identifier is not unregistered, whatever else is registered or
    /// unregistered meanwhile.
    pub proof fn lemma_found_until_unregistered(self, id: MediaStreamId, ops: Seq<RegistryOp<S>>)
        requires
            self.wf(),
            self.issued + ops.len() <= u64::MAX,
            self.streams.contains_key(id),
            forall|i: int| 0 <= i < ops.len() ==> ops[i] != RegistryOp::<S>::Unregister(id),
        ensures
            self.apply_all(ops).look_up(id) == self.look_up(id),
        decreases ops.len(),
    {
        if ops.len() > 0 {
            let next = self.apply(ops.first());
            assert(ops[0] != RegistryOp::<S>::Unregister(id));
            match ops.first() {
                RegistryOp::Register(stream) => self.lemma_register(stream),
                RegistryOp::Unregister(other) => self.lemma_unregister(other),
            }
            assert(next.look_up(id) == self.look_up(id));
            assert forall|i: int| 0 <= i < ops.drop_first().len() implies ops.drop_first()[i]
                != RegistryOp::<S>::Unregister(id) by {
                assert(ops.drop_first()[i] == ops[i + 1]);
            }
            next.lemma_found_until_unregistered(id, ops.drop_first());
        }
    }

    /// An identifier that was handed out and is no longer registered is
    /// never found again: no later registration gets it.
    pub proof fn lemma_never_found_again(self, id: MediaStreamId, ops: Seq<RegistryOp<S>>)
        requires
            self.wf(),
            self.issued + ops.len() <= u64::MAX,
            id.0 < self.issued,
            !self.streams.contains_key(id),
        ensures
            self.apply_all(ops).look_up(id) is None,
        decreases ops.len(),
    {
        if ops.len() > 0 {
            let next = self.apply(ops.first());
            match ops.first() {
                RegistryOp::Register(stream) => self.lemma_register(stream),
                RegistryOp::Unregister(other) => self.lemma_unregister(other),
            }
            next.lemma_never_found_again(id, ops.drop_first());
        }
    }

    /// A stream is found from its registration until its identifier is
    /// unregistered, and never after.
    pub proof fn lemma_registered_then_unregistered(
        self,
        stream: S,
        between: Seq<RegistryOp<S>>,
        after: Seq<RegistryOp<S>>,
    )
        requires
            self.wf(),
            self.issued + 1 + between.len() + after.len() <= u64::MAX,
            forall|i: int|
                0 <= i < between.len() ==> between[i] != RegistryOp::<S>::Unregister(
                    self.next_id(),
                ),
        ensures
            ({
                let id = self.next_id();
                let registered = self.register(stream).apply_all(between);
                let unregistered = registered.unregister(id).apply_all(after);
                &&& registered.look_up(id) == Some(stream.with_id(id))
                &&& unregistered.look_up(id) is None
            }),
    {
        let id = self.next_id();
        self.lemma_register(stream);
        self.register(stream).lemma_apply_all(between);
        self.register(stream).lemma_found_until_unregistered(id, between);
        let registered = self.register(stream).apply_all(between);
        registered.lemma_unregister(id);
        registered.unregister(id).lemma_never_found_again(id, after);
    }

    /// Registering `n` streams one after another, in whatever order the
    /// callers come, hands out `n` identifiers of which no two are equal and
    /// none was registered before, loses no registration, and grows the
    /// registry by `n`.
    pub proof fn lemma_register_all(self, streams: Seq<S>)
        requires
            self.wf(),
            self.issued + streams.len() <= u64::MAX,
        ensures
            self.register_all(streams).wf(),
            self.register_all(streams).issued == self.issued + streams.len(),
            self.register_all(streams).len() == self.len() + streams.len(),
            forall|i: int, j: int|
                0 <= i < j < streams.len() ==> self.nth_next_id(i) != self.nth_next_id(j),
            forall|i: int|
                0 <= i < streams.len() ==> !self.streams.contains_key(
                    #[trigger] self.nth_next_id(i),
                ) && self.register_all(streams).look_up(self.nth_next_id(i)) == Some(
                    streams[i].with_id(self.nth_next_id(i)),
                ),
            forall|id: MediaStreamId|
                self.streams.contains_key(id) ==> self.register_all(streams).look_up(id)
                    == self.look_up(id),
        decreases streams.len(),
    {
        if streams.len() > 0 {
            let first = streams.first();
            let rest = streams.drop_first();
            let next = self.register(first);
            self.lemma_register(first);
            next.lemma_register_all(rest);
            assert forall|i: int| 0 <= i < streams.len() implies !self.streams.contains_key(
                #[trigger] self.nth_next_id(i),
            ) && self.register_all(streams).look_up(self.nth_next_id(i)) == Some(
                streams[i].with_id(self.nth_next_id(i)),
            ) by {
                if i == 0 {
                    assert(self.nth_next_id(0) == self.next_id());
                    assert(next.streams.contains_key(self.next_id()));
                } else {
                    assert(self.nth_next_id(i) == next.nth_next_id(i - 1));
                    assert(rest[i - 1] == streams[i]);
                    assert(!next.streams.contains_key(next.nth_next_id(i - 1)));
                }
            }
            assert forall|id: MediaStreamId|
                self.streams.contains_key(id) implies self.register_all(streams).look_up(id)
                == self.look_up(id) by {
                assert(next.streams.contains_key(id));
            }
        }
    }
}

/// A table from stream identifiers to shared streams.
pub struct StreamRegistry<S: MediaStream> {
    table: HashMap<u64, Arc<S>>,
    next: u64,
}

impl<S: MediaStream> View for StreamRegistry<S> {
    type V = RegistryModel<S>;

    closed spec fn view(&self) -> RegistryModel<S> {
        RegistryModel {
            streams: Map::new(
                |id: MediaStreamId| self.table@.contains_key(id.0),
                |id: MediaStreamId| *self.table@[id.0],
            ),
            issued: self.next as nat,
        }
    }
}

/// `Arc::clone` of std: a second handle to the value that `handle` points
/// to. Both handles share one allocation, so the two are equal as values.
#[verifier::external_body]
fn share<S>(handle: &Arc<S>) -> (other: Arc<S>)
    ensures
        other == *handle,
{
    Arc::clone(handle)
}

impl<S: MediaStream> StreamRegistry<S> {
    /// A registry with no stream in it.
    pub fn new() -> (registry: StreamRegistry<S>)
        ensures
            registry@ == RegistryModel::<S>::empty(),
            registry@.wf(),
    {
        let registry = StreamRegistry { table: HashMap::new(), next: 0 };
        assert(registry@.streams =~= Map::empty());
        registry
    }

    /// Whether an identifier is left for one more registration.
    pub fn has_capacity(&self) -> (free: bool)
        ensures
            free == (self@.issued < u64::MAX),
    {
        self.next < u64::MAX
    }

    /// Registers `stream`: assigns it the next identifier, stores a shared
    /// handle to it and returns the identifier.
    pub fn register(&mut self, stream: S) -> (id: MediaStreamId)
        requires
            old(self)@.wf(),
            old(self)@.issued < u64::MAX,
        ensures
            id == old(self)@.next_id(),
            final(self)@ == old(self)@.register(stream),
            final(self)@.wf(),
    {
        let raw: u64 = self.next;
        let id = MediaStreamId(raw);
        let mut stream = stream;
        let ghost before = stream;
        stream.set_id(id);
        proof {
            before.lemma_with_id(id);
        }
        let ghost old_view = self@;
        self.next = raw + 1;
        self.table.insert(raw, Arc::new(stream));
        assert(self@.streams =~= old_view.register(before).streams);
        id
    }

    /// Returns another shared handle to the stream registered under `id`,
    /// or `None` where no stream is registered under it.
    pub fn look_up(&self, id: &MediaStreamId) -> (found: Option<Arc<S>>)
        ensures
            match found {
                Some(handle) => self@.look_up(*id) == Some(*handle),
                None => self@.look_up(*id) is None,
            },
    {
        match self.table.get(&id.0) {
            Some(handle) => Some(share(handle)),
            None => None,
        }
    }

    /// Removes the entry of `id`. Where no stream is registered under `id`
    /// this changes nothing.
    pub fn unregister(&mut self, id: &MediaStreamId)
        requires
            old(self)@.wf(),
        ensures
            final(self)@ == old(self)@.unregister(*id),
            final(self)@.wf(),
    {
        let ghost old_view = self@;
        self.table.remove(&id.0);
        assert(self@.streams =~= old_view.unregister(*id).streams);
    }

    /// Whether a stream is registered under `id`.
    pub fn contains(&self, id: &MediaStreamId) -> (known: bool)
        ensures
            known == self@.streams.contains_key(*id),
    {
        self.table.contains_key(&id.0)
    }

    /// The number of registered streams.
    pub fn len(&self) -> (n: usize)
        ensures
            n == self@.len(),
    {
        proof {
            self.lemma_len();
        }
        self.table.len()
    }

    /// The view has as many streams as the table has entries.
    proof fn lemma_len(&self)
        ensures
            self@.streams.dom().len() == self.table@.dom().len(),
    {
        let keys = self.table@.dom();
        let ids = self@.streams.dom();
        assert(ids =~= keys.map(|raw: u64| MediaStreamId(raw))) by {
            assert forall|id: MediaStreamId| ids.contains(id) implies keys.map(
                |raw: u64| MediaStreamId(raw),
            ).contains(id) by {
                assert(keys.contains(id.0));
                assert(MediaStreamId(id.0) == id);
            }
        }
        vstd::set_lib::lemma_map_size(keys, ids, |raw: u64| MediaStreamId(raw));
    }
}

} // verus!
