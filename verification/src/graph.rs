//! The node graph of an audio context.
//!
//! The graph is a chain: a block starts as silence and runs through the
//! nodes first to last, sources before effects. The connections are the
//! order of the nodes. Each node has an identifier that is never given to
//! another node of the same graph, and the graph keeps the accumulator of
//! every node from one block to the next.
use vstd::prelude::*;
use crate::block::BlockFormat;
use crate::block::silent_data;
use crate::block::Chunk;
use crate::node::AudioNodeEngine;

verus! {

/// An opaque token that identifies one node of a graph.
#[derive(Clone, Copy, Debug, PartialEq, Eq, Hash, Structural)]
pub struct NodeId(pub u64);

/// One node of a graph: the engine that does the work, the state it
/// carries between blocks, and its settings.
pub struct AudioNode<N: AudioNodeEngine> {
    pub id: NodeId,
    pub engine: N,
    pub accumulator: N::Accumulator,
    pub freq: u32,
    pub volume: N::Volume,
}

impl<N: AudioNodeEngine> AudioNode<N> {
    /// The two are one node with the same settings; the accumulators may
    /// differ.
    pub open spec fn same_but_accumulator(self, other: AudioNode<N>) -> bool {
        &&& self.id == other.id
        &&& self.engine == other.engine
        &&& self.freq == other.freq
        &&& self.volume == other.volume
    }

    /// Lets the node process `block` in place, for the rate and the
    /// channels of `format`.
    ///
    /// The engine's `process` is called once, on the sample data of the
    /// block and the accumulator of the node, with the node's frequency and
    /// volume. The block's data and the node's accumulator are what that
    /// call left; nothing else changes.
    pub fn run(&mut self, block: &mut Chunk, format: &BlockFormat)
        ensures
            final(self).same_but_accumulator(*old(self)),
            final(block).channels == old(block).channels,
            final(block).sample_rate == old(block).sample_rate,
            final(block).data@.len() == old(block).data@.len(),
            exists|data: &mut [u8], acc: &mut N::Accumulator|
                data@ == old(block).data@ && final(data)@ == final(block).data@
                    && *acc == old(self).accumulator && *final(acc) == final(self).accumulator
                    && #[trigger] call_ensures(
                    N::process,
                    (
                        &old(self).engine,
                        data,
                        acc,
                        old(self).freq,
                        format.sample_rate,
                        format.channels,
                        &old(self).volume,
                    ),
                    (),
                ),
    {
        self.engine.process(
            block.data.as_mut_slice(),
            &mut self.accumulator,
            self.freq,
            format.sample_rate,
            format.channels,
            &self.volume,
        );
    }
}

/// `ins` and `outs` are the sample data before and after each of `n` steps
/// of a chain that starts from `first` and ends in `last`: there is one
/// entry per step, the first step gets `first`, and the last step leaves
/// `last`. A chain without steps ends in what it starts from.
pub open spec fn chain(
    ins: Seq<Seq<u8>>,
    outs: Seq<Seq<u8>>,
    n: nat,
    first: Seq<u8>,
    last: Seq<u8>,
) -> bool {
    &&& ins.len() == n
    &&& outs.len() == n
    &&& n == 0 ==> last == first
    &&& n > 0 ==> ins[0] == first && outs[n - 1] == last
}

/// What a graph holds, as mathematics: the nodes in the order in which a
/// block runs through them, and how many identifiers were handed out.
pub struct GraphModel<N: AudioNodeEngine> {
    pub nodes: Seq<AudioNode<N>>,
    pub issued: nat,
}

impl<N: AudioNodeEngine> GraphModel<N> {
    /// The graph without nodes.
    pub open spec fn empty() -> GraphModel<N> {
        GraphModel { nodes: Seq::empty(), issued: 0 }
    }

    /// Every node has an identifier that was handed out, and no two nodes
    /// have the same.
    pub open spec fn wf(self) -> bool {
        &&& self.issued <= u64::MAX
        &&& forall|i: int|
            0 <= i < self.nodes.len() ==> (#[trigger] self.nodes[i]).id.0 < self.issued
        &&& forall|i: int, j: int|
            0 <= i < j < self.nodes.len() ==> (#[trigger] self.nodes[i]).id
                != (#[trigger] self.nodes[j]).id
    }

    /// The graph has a node with identifier `id`.
    pub open spec fn contains(self, id: NodeId) -> bool {
        exists|i: int| 0 <= i < self.nodes.len() && (#[trigger] self.nodes[i]).id == id
    }

    /// The place of the node with identifier `id` in the chain.
    pub open spec fn position(self, id: NodeId) -> int {
        choose|i: int| 0 <= i < self.nodes.len() && (#[trigger] self.nodes[i]).id == id
    }

    /// The identifier that the next node gets.
    pub open spec fn next_id(self) -> NodeId {
        NodeId(self.issued as u64)
    }

    /// The graph after a node was added at the end of the chain.
    pub open spec fn add(
        self,
        engine: N,
        accumulator: N::Accumulator,
        freq: u32,
        volume: N::Volume,
    ) -> GraphModel<N> {
        GraphModel {
            nodes: self.nodes.push(
                AudioNode { id: self.next_id(), engine, accumulator, freq, volume },
            ),
            issued: self.issued + 1,
        }
    }

    /// The graph after the node with identifier `id` was taken out: the
    /// others keep their order. Without such a node, the graph as it is.
    pub open spec fn remove(self, id: NodeId) -> GraphModel<N> {
        if self.contains(id) {
            GraphModel { nodes: self.nodes.remove(self.position(id)), issued: self.issued }
        } else {
            self
        }
    }

    /// The graph after every node was taken out. No identifier becomes free.
    pub open spec fn cleared(self) -> GraphModel<N> {
        GraphModel { nodes: Seq::empty(), issued: self.issued }
    }

    /// The two graphs have the same nodes in the same order with the same
    /// settings; only what the nodes carry between blocks may differ.
    pub open spec fn same_wiring(self, other: GraphModel<N>) -> bool {
        &&& self.issued == other.issued
        &&& self.nodes.len() == other.nodes.len()
        &&& forall|i: int|
            0 <= i < self.nodes.len() ==> (#[trigger] self.nodes[i]).same_but_accumulator(
                other.nodes[i],
            )
    }

    /// With unique identifiers, the place of a node is the one place where
    /// its identifier stands.
    pub proof fn lemma_position(self, i: int)
        requires
            self.wf(),
            0 <= i < self.nodes.len(),
        ensures
            self.contains(self.nodes[i].id),
            self.position(self.nodes[i].id) == i,
    {
        let id = self.nodes[i].id;
        let p = self.position(id);
        assert(0 <= p < self.nodes.len() && self.nodes[p].id == id);
        if p < i {
            assert(self.nodes[p].id != self.nodes[i].id);
        } else if i < p {
            assert(self.nodes[i].id != self.nodes[p].id);
        }
    }

    /// Adding a node keeps a graph well formed, gives the node an
    /// identifier that no node of the graph ever had, and puts it last.
    pub proof fn lemma_add(
        self,
        engine: N,
        accumulator: N::Accumulator,
        freq: u32,
        volume: N::Volume,
    )
        requires
            self.wf(),
            self.issued < u64::MAX,
        ensures
            self.add(engine, accumulator, freq, volume).wf(),
            !self.contains(self.next_id()),
            self.add(engine, accumulator, freq, volume).contains(self.next_id()),
            self.add(engine, accumulator, freq, volume).position(self.next_id())
                == self.nodes.len(),
    {
        let added = self.add(engine, accumulator, freq, volume);
        assert(added.nodes[self.nodes.len() as int].id == self.next_id());
        assert forall|i: int, j: int|
            0 <= i < j < added.nodes.len() implies (#[trigger] added.nodes[i]).id
            != (#[trigger] added.nodes[j]).id by {
            if j < self.nodes.len() {
                assert(self.nodes[i].id != self.nodes[j].id);
            } else {
                assert(self.nodes[i].id.0 < self.issued);
            }
        }
        added.lemma_position(self.nodes.len() as int);
    }

    /// Taking a node out keeps a graph well formed and leaves no node with
    /// that identifier; every other node stays.
    pub proof fn lemma_remove(self, id: NodeId)
        requires
            self.wf(),
        ensures
            self.remove(id).wf(),
            !self.remove(id).contains(id),
            forall|other: NodeId|
                other != id ==> (self.remove(id).contains(other) <==> self.contains(other)),
            self.contains(id) ==> self.remove(id).nodes.len() + 1 == self.nodes.len(),
    {
        if self.contains(id) {
            let p = self.position(id);
            let removed = self.remove(id);
            assert forall|i: int|
                0 <= i < removed.nodes.len() implies (#[trigger] removed.nodes[i]).id.0
                < removed.issued && removed.nodes[i].id != id by {
                if i < p {
                    assert(removed.nodes[i] == self.nodes[i]);
                    assert(self.nodes[i].id != self.nodes[p].id);
                } else {
                    assert(removed.nodes[i] == self.nodes[i + 1]);
                    assert(self.nodes[p].id != self.nodes[i + 1].id);
                }
            }
            assert forall|i: int, j: int|
                0 <= i < j < removed.nodes.len() implies (#[trigger] removed.nodes[i]).id
                != (#[trigger] removed.nodes[j]).id by {
                let si = if i < p {
                    i
                } else {
                    i + 1
                };
                let sj = if j < p {
                    j
                } else {
                    j + 1
                };
                assert(removed.nodes[i] == self.nodes[si]);
                assert(removed.nodes[j] == self.nodes[sj]);
                assert(self.nodes[si].id != self.nodes[sj].id);
            }
            assert forall|other: NodeId| other != id implies (removed.contains(other)
                <==> self.contains(other)) by {
                if self.contains(other) {
                    let q = self.position(other);
                    if q < p {
                        assert(removed.nodes[q] == self.nodes[q]);
                    } else {
                        assert(removed.nodes[q - 1] == self.nodes[q]);
                    }
                }
                if removed.contains(other) {
                    let q = removed.position(other);
                    if q < p {
                        assert(removed.nodes[q] == self.nodes[q]);
                    } else {
                        assert(removed.nodes[q] == self.nodes[q + 1]);
                    }
                }
            }
        }
    }
}

/// The node graph of one audio context.
pub struct AudioGraph<N: AudioNodeEngine> {
    nodes: Vec<AudioNode<N>>,
    next: u64,
}

impl<N: AudioNodeEngine> View for AudioGraph<N> {
    type V = GraphModel<N>;

    closed spec fn view(&self) -> GraphModel<N> {
        GraphModel { nodes: self.nodes@, issued: self.next as nat }
    }
}

impl<N: AudioNodeEngine> AudioGraph<N> {
    /// A graph without nodes.
    pub fn new() -> (graph: AudioGraph<N>)
        ensures
            graph@ == GraphModel::<N>::empty(),
            graph@.wf(),
    {
        AudioGraph { nodes: Vec::new(), next: 0 }
    }

    /// The number of nodes.
    pub fn len(&self) -> (n: usize)
        ensures
            n == self@.nodes.len(),
    {
        self.nodes.len()
    }

    /// Whether an identifier is left for one more node.
    pub fn has_capacity(&self) -> (free: bool)
        ensures
            free == (self@.issued < u64::MAX),
    {
        self.next < u64::MAX
    }

    /// Finds the place of the node with identifier `id`.
    pub fn find(&self, id: NodeId) -> (place: Option<usize>)
        requires
            self@.wf(),
        ensures
            match place {
                Some(i) => self@.contains(id) && i == self@.position(id),
                None => !self@.contains(id),
            },
    {
        let mut i: usize = 0;
        while i < self.nodes.len()
            invariant
                i <= self.nodes@.len(),
                self@.wf(),
                forall|k: int| 0 <= k < i ==> (#[trigger] self.nodes@[k]).id != id,
            decreases self.nodes.len() - i,
        {
            if self.nodes[i].id.0 == id.0 {
                proof {
                    self@.lemma_position(i as int);
                }
                return Some(i);
            }
            i = i + 1;
        }
        None
    }

    /// Whether the graph has a node with identifier `id`.
    pub fn contains(&self, id: NodeId) -> (known: bool)
        requires
            self@.wf(),
        ensures
            known == self@.contains(id),
    {
        self.find(id).is_some()
    }

    /// Adds a node at the end of the chain and returns its identifier.
    pub fn add_node(
        &mut self,
        engine: N,
        accumulator: N::Accumulator,
        freq: u32,
        volume: N::Volume,
    ) -> (id: NodeId)
        requires
            old(self)@.wf(),
            old(self)@.issued < u64::MAX,
        ensures
            id == old(self)@.next_id(),
            final(self)@ == old(self)@.add(engine, accumulator, freq, volume),
            final(self)@.wf(),
    {
        proof {
            self@.lemma_add(engine, accumulator, freq, volume);
        }
        let id = NodeId(self.next);
        self.next = self.next + 1;
        self.nodes.push(AudioNode { id, engine, accumulator, freq, volume });
        id
    }

    /// Takes the node with identifier `id` out of the chain and returns it,
    /// with what it carried. Without such a node, changes nothing.
    pub fn remove_node(&mut self, id: NodeId) -> (removed: Option<AudioNode<N>>)
        requires
            old(self)@.wf(),
        ensures
            final(self)@ == old(self)@.remove(id),
            final(self)@.wf(),
            match removed {
                Some(node) => {
                    &&& old(self)@.contains(id)
                    &&& node == old(self)@.nodes[old(self)@.position(id)]
                },
                None => !old(self)@.contains(id),
            },
    {
        proof {
            self@.lemma_remove(id);
        }
        match self.find(id) {
            Some(i) => Some(self.nodes.remove(i)),
            None => None,
        }
    }

    /// Takes every node out of the chain.
    pub fn clear(&mut self)
        ensures
            final(self)@ == old(self)@.cleared(),
            final(self)@.wf(),
    {
        self.nodes.clear();
    }

    /// Renders one block of shape `format`: starts from silence and lets
    /// every node process the block in place, first to last.
    ///
    /// Each node is run once, by `AudioNode::run`. The first node gets
    /// silence, every other node gets what the node before it left, and the
    /// block returned is what the last node left. The graph keeps its nodes
    /// and their settings, and every accumulator is what the node's run
    /// left. A graph without nodes renders silence and stays as it is.
    ///
    /// In the contract, `ins[j]` and `outs[j]` are the sample data before
    /// and after the run of node `j`.
    pub fn render(&mut self, format: &BlockFormat) -> (block: Chunk)
        ensures
            block.conforms(*format),
            final(self)@.same_wiring(old(self)@),
            old(self)@.nodes.len() == 0 ==> block.is_silence(*format),
            old(self)@.nodes.len() == 0 ==> final(self)@ == old(self)@,
            old(self)@.wf() ==> final(self)@.wf(),
            exists|ins: Seq<Seq<u8>>, outs: Seq<Seq<u8>>|
                #![trigger ins.len(), outs.len()]
                chain(
                    ins,
                    outs,
                    old(self)@.nodes.len(),
                    silent_data(format.block_len as nat),
                    block.data@,
                ) && forall|j: int|
                    #![trigger ins[j]]
                    #![trigger old(self)@.nodes[j]]
                    #![trigger final(self)@.nodes[j]]
                    0 <= j < old(self)@.nodes.len() ==> (j > 0 ==> ins[j] == outs[j - 1])
                        && exists|node: &mut AudioNode<N>, stage: &mut Chunk|
                            *node == old(self)@.nodes[j] && *final(node) == final(self)@.nodes[j]
                                && stage.data@ == ins[j] && final(stage).data@ == outs[j]
                                && #[trigger] call_ensures(
                                AudioNode::<N>::run,
                                (node, stage, format),
                                (),
                            ),
    {
        let mut block = Chunk::silence(format);
        let ghost mut ins: Seq<Seq<u8>> = Seq::empty();
        let ghost mut outs: Seq<Seq<u8>> = Seq::empty();
        let mut i: usize = 0;
        while i < self.nodes.len()
            invariant
                i <= self.nodes@.len(),
                block.conforms(*format),
                self@.same_wiring(old(self)@),
                old(self)@.nodes.len() == 0 ==> block.is_silence(*format) && self@ == old(self)@,
                chain(ins, outs, i as nat, silent_data(format.block_len as nat), block.data@),
                forall|k: int|
                    i <= k < self.nodes@.len() ==> #[trigger] self.nodes@[k] == old(self)@.nodes[k],
                forall|j: int|
                    #![trigger ins[j]]
                    0 <= j < i ==> (j > 0 ==> ins[j] == outs[j - 1]) && exists|
                        node: &mut AudioNode<N>,
                        stage: &mut Chunk,
                    |
                            *node == old(self)@.nodes[j] && *final(node) == self.nodes@[j]
                                && stage.data@ == ins[j] && final(stage).data@ == outs[j]
                                && #[trigger] call_ensures(
                                AudioNode::<N>::run,
                                (node, stage, format),
                                (),
                            ),
            decreases self.nodes.len() - i,
        {
            let ghost nodes_before = self.nodes@;
            let ghost ins_before = ins;
            let ghost outs_before = outs;
            let ghost input = block.data@;
            let node = &mut self.nodes[i];
            node.run(&mut block, format);
            proof {
                ins = ins.push(input);
                outs = outs.push(block.data@);
                assert forall|j: int| #![trigger ins[j]] 0 <= j < i + 1 implies (j > 0 ==> ins[j]
                    == outs[j - 1]) && exists|node: &mut AudioNode<N>, stage: &mut Chunk|
                            *node == old(self)@.nodes[j] && *final(node) == self.nodes@[j]
                                && stage.data@ == ins[j] && final(stage).data@ == outs[j]
                                && #[trigger] call_ensures(
                                AudioNode::<N>::run,
                                (node, stage, format),
                                (),
                            ) by {
                    if j < i {
                        assert(ins[j] == ins_before[j]);
                        assert(outs[j] == outs_before[j]);
                        assert(self.nodes@[j] == nodes_before[j]);
                    } else {
                        assert(nodes_before[j] == old(self)@.nodes[j]);
                    }
                }
            }
            i = i + 1;
        }
        block
    }
}

} // verus!
