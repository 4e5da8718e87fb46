//! The audio context: the render-side state of one pipeline, with the
//! graph it renders and the sink it drives.
//!
//! The context decides and renders; the loop around it only waits. The loop
//! takes each control message to `handle_message`, applies the graph edits
//! it was asked for between two blocks, asks `next_action` what to do,
//! calls `render_iteration` for every block, and asks `next_action_after`
//! what follows it. Only `render_iteration` ever gives a block to the sink.
//!
//! Where a contract speaks of what a sink or a node does, it names the call
//! by `call_ensures`: what the call may answer is what the contract of the
//! sink's or the node's own method allows.
use std::sync::mpsc::Sender;
use vstd::prelude::*;
use crate::block::BlockFormat;
use crate::block::Chunk;
use crate::graph::AudioGraph;
use crate::graph::AudioNode;
use crate::graph::GraphModel;
use crate::graph::NodeId;
use crate::node::AudioNodeEngine;
use crate::render::action;
use crate::render::action_after;
use crate::render::judge;
use crate::render::settled_drained;
use crate::render::settled_state;
use crate::render::sink_command;
use crate::render::transition;
use crate::render::verdict;
use crate::render::AudioRenderThreadMsg;
use crate::render::Delivery;
use crate::render::RenderAction;
use crate::render::RenderState;
use crate::render::SinkCommand;
use crate::render::Verdict;
use crate::sink::AudioSink;
use crate::sink::AudioSinkError;

verus! {

/// The logical owner of a set of media resources.
#[derive(Clone, Copy, Debug, PartialEq, Eq, Hash, Structural)]
pub struct ClientContextId(pub u32, pub u32);

impl ClientContextId {
    /// The identifier made of the two numbers.
    pub fn build(a: u32, b: u32) -> (id: ClientContextId)
        ensures
            id == ClientContextId(a, b),
    {
        ClientContextId(a, b)
    }
}

/// What a context is made with: the shape of its blocks.
#[derive(Clone, Copy, Debug, PartialEq, Eq, Structural)]
pub struct AudioContextOptions {
    /// Frames per second.
    pub sample_rate: u32,
    /// Channels per frame.
    pub channels: u32,
    /// Bytes of sample data in one block.
    pub block_len: usize,
}

impl AudioContextOptions {
    /// The shape of the blocks of a context made with these options.
    pub open spec fn format(self) -> BlockFormat {
        BlockFormat {
            sample_rate: self.sample_rate,
            channels: self.channels,
            block_len: self.block_len,
        }
    }
}

impl Default for AudioContextOptions {
    /// 44100 frames per second, two channels, 128 frames of four-byte
    /// samples per block.
    fn default() -> (options: AudioContextOptions)
        ensures
            options == (AudioContextOptions { sample_rate: 44100, channels: 2, block_len: 1024 }),
    {
        AudioContextOptions { sample_rate: 44100, channels: 2, block_len: 1024 }
    }
}

/// The render-side state of one audio pipeline, with the graph it renders
/// and the sink it drives.
pub struct AudioContext<S: AudioSink, N: AudioNodeEngine> {
    id: usize,
    client_context_id: ClientContextId,
    format: BlockFormat,
    state: RenderState,
    drained: bool,
    sink: S,
    graph: AudioGraph<N>,
}

impl<S: AudioSink, N: AudioNodeEngine> AudioContext<S, N> {
    /// The number of this context among those of its backend.
    pub closed spec fn spec_id(&self) -> usize {
        self.id
    }

    /// The owner this context belongs to.
    pub closed spec fn spec_client_context_id(&self) -> ClientContextId {
        self.client_context_id
    }

    /// The shape of every block of this context.
    pub closed spec fn spec_format(&self) -> BlockFormat {
        self.format
    }

    /// The state of the context.
    pub closed spec fn spec_state(&self) -> RenderState {
        self.state
    }

    /// Whether the sink has drained since it was last started.
    pub closed spec fn spec_drained(&self) -> bool {
        self.drained
    }

    /// The sink of the context.
    pub closed spec fn spec_sink(&self) -> S {
        self.sink
    }

    /// The graph of the context.
    pub closed spec fn spec_graph(&self) -> GraphModel<N> {
        self.graph@
    }

    /// The graph of the context is well formed.
    pub open spec fn wf(&self) -> bool {
        self.spec_graph().wf()
    }

    /// What never changes in the life of a context is as in `other`: its
    /// number, its owner and the shape of its blocks.
    pub open spec fn same_identity(&self, other: &AudioContext<S, N>) -> bool {
        &&& self.spec_id() == other.spec_id()
        &&& self.spec_client_context_id() == other.spec_client_context_id()
        &&& self.spec_format() == other.spec_format()
    }

    /// The graph that a context has after it settled in `state`: a
    /// terminated context has released its nodes.
    pub open spec fn settled_graph(graph: GraphModel<N>, state: RenderState) -> GraphModel<N> {
        if state == RenderState::Terminated {
            graph.cleared()
        } else {
            graph
        }
    }

    /// A context in state `Created`, with an empty graph, around a sink
    /// that was initialised.
    pub fn with_sink(
        id: usize,
        client_context_id: &ClientContextId,
        sink: S,
        options: AudioContextOptions,
    ) -> (context: AudioContext<S, N>)
        ensures
            context.spec_id() == id,
            context.spec_client_context_id() == *client_context_id,
            context.spec_format() == options.format(),
            context.spec_state() == RenderState::Created,
            !context.spec_drained(),
            context.spec_sink() == sink,
            context.spec_graph() == GraphModel::<N>::empty(),
            context.wf(),
    {
        AudioContext {
            id,
            client_context_id: *client_context_id,
            format: BlockFormat {
                sample_rate: options.sample_rate,
                channels: options.channels,
                block_len: options.block_len,
            },
            state: RenderState::Created,
            drained: false,
            sink,
            graph: AudioGraph::new(),
        }
    }

    /// Makes a context around `sink`, given how the sink answered when it
    /// was initialised: a context as `with_sink` makes it where the sink
    /// succeeded, the sink's error where it failed.
    pub fn from_init(
        id: usize,
        client_context_id: &ClientContextId,
        sink: S,
        options: AudioContextOptions,
        answer: Result<(), AudioSinkError>,
    ) -> (made: Result<AudioContext<S, N>, AudioSinkError>)
        ensures
            match answer {
                Ok(()) => {
                    &&& made matches Ok(context)
                    &&& context.spec_id() == id
                    &&& context.spec_client_context_id() == *client_context_id
                    &&& context.spec_format() == options.format()
                    &&& context.spec_state() == RenderState::Created
                    &&& !context.spec_drained()
                    &&& context.spec_sink() == sink
                    &&& context.spec_graph() == GraphModel::<N>::empty()
                    &&& context.wf()
                },
                Err(e) => made matches Err(passed) && passed == e,
            },
    {
        match answer {
            Ok(()) => Ok(AudioContext::with_sink(id, client_context_id, sink, options)),
            Err(e) => Err(e),
        }
    }

    /// Initialises `sink` for the sample rate of `options`, handing it
    /// `sender`, and makes a context around it.
    ///
    /// The sink decides. The call succeeds exactly when `init` of the sink
    /// succeeds on these arguments, and the context then holds the sink as
    /// `init` left it; it fails exactly when `init` fails, with the error of
    /// `init`. What `init` may answer is what its own contract allows.
    pub fn new(
        id: usize,
        client_context_id: &ClientContextId,
        sink: S,
        sender: Sender<AudioRenderThreadMsg>,
        options: AudioContextOptions,
    ) -> (made: Result<AudioContext<S, N>, AudioSinkError>)
        ensures
            match made {
                Ok(context) => {
                    &&& context.spec_id() == id
                    &&& context.spec_client_context_id() == *client_context_id
                    &&& context.spec_format() == options.format()
                    &&& context.spec_state() == RenderState::Created
                    &&& !context.spec_drained()
                    &&& context.spec_graph() == GraphModel::<N>::empty()
                    &&& context.wf()
                    &&& exists|s: &mut S, answer: Result<(), AudioSinkError>|
                        answer is Ok && *s == sink && *final(s) == context.spec_sink()
                            && call_ensures(S::init, (s, options.sample_rate, sender), answer)
                },
                Err(e) => exists|s: &mut S|
                    *s == sink && call_ensures(
                        S::init,
                        (s, options.sample_rate, sender),
                        Err::<(), AudioSinkError>(e),
                    ),
            },
    {
        let mut sink = sink;
        let answer = sink.init(options.sample_rate, sender);
        AudioContext::from_init(id, client_context_id, sink, options, answer)
    }

    /// Returns the number of this context among those of its backend.
    pub fn id(&self) -> (id: usize)
        ensures
            id == self.spec_id(),
    {
        self.id
    }

    /// Returns the owner this context belongs to.
    pub fn client_context_id(&self) -> (id: ClientContextId)
        ensures
            id == self.spec_client_context_id(),
    {
        self.client_context_id
    }

    /// Returns the shape of every block of this context.
    pub fn format(&self) -> (format: BlockFormat)
        ensures
            format == self.spec_format(),
    {
        self.format
    }

    /// Returns the state of the context.
    pub fn state(&self) -> (state: RenderState)
        ensures
            state == self.spec_state(),
    {
        self.state
    }

    /// Returns whether the sink has drained since it was last started.
    pub fn is_drained(&self) -> (drained: bool)
        ensures
            drained == self.spec_drained(),
    {
        self.drained
    }

    /// Returns the sink of the context.
    pub fn sink(&self) -> (sink: &S)
        ensures
            *sink == self.spec_sink(),
    {
        &self.sink
    }

    /// Returns the number of nodes in the graph.
    pub fn node_count(&self) -> (n: usize)
        ensures
            n == self.spec_graph().nodes.len(),
    {
        self.graph.len()
    }

    /// Says what the render loop does next: leave once the context is
    /// terminated, render while it runs and the sink has not drained, wait
    /// otherwise.
    pub fn next_action(&self) -> (next: RenderAction)
        ensures
            next == action(self.spec_state(), self.spec_drained()),
    {
        if matches!(self.state, RenderState::Terminated) {
            RenderAction::Exit
        } else if matches!(self.state, RenderState::Running) && !self.drained {
            RenderAction::Render
        } else {
            RenderAction::Wait
        }
    }

    /// Says what the render loop does after an iteration that ended in
    /// `outcome`: after a push, what `next_action` says; after an iteration
    /// that pushed nothing, wait for the next control message, so that a
    /// sink with enough data is not asked again at once.
    pub fn next_action_after(&self, outcome: Result<Delivery, AudioSinkError>) -> (next:
        RenderAction)
        ensures
            next == action_after(self.spec_state(), self.spec_drained(), outcome),
    {
        let next = self.next_action();
        let pushed = matches!(outcome, Ok(Delivery::Pushed));
        if !pushed && matches!(next, RenderAction::Render) {
            RenderAction::Wait
        } else {
            next
        }
    }

    /// Adds a node at the end of the chain and returns its identifier. A
    /// terminated context takes no node, nor does a graph that has handed
    /// out every identifier: the result is then `None` and nothing changes.
    pub fn add_node(
        &mut self,
        engine: N,
        accumulator: N::Accumulator,
        freq: u32,
        volume: N::Volume,
    ) -> (id: Option<NodeId>)
        requires
            old(self).wf(),
        ensures
            final(self).wf(),
            final(self).same_identity(old(self)),
            final(self).spec_state() == old(self).spec_state(),
            final(self).spec_drained() == old(self).spec_drained(),
            final(self).spec_sink() == old(self).spec_sink(),
            if old(self).spec_state() != RenderState::Terminated && old(self).spec_graph().issued
                < u64::MAX {
                &&& id == Some(old(self).spec_graph().next_id())
                &&& final(self).spec_graph() == old(self).spec_graph().add(
                    engine,
                    accumulator,
                    freq,
                    volume,
                )
            } else {
                &&& id is None
                &&& final(self).spec_graph() == old(self).spec_graph()
            },
    {
        if matches!(self.state, RenderState::Terminated) || !self.graph.has_capacity() {
            None
        } else {
            Some(self.graph.add_node(engine, accumulator, freq, volume))
        }
    }

    /// Takes the node with identifier `id` out of the chain and returns it.
    /// Without such a node, changes nothing.
    pub fn remove_node(&mut self, id: NodeId) -> (removed: Option<AudioNode<N>>)
        requires
            old(self).wf(),
        ensures
            final(self).wf(),
            final(self).same_identity(old(self)),
            final(self).spec_state() == old(self).spec_state(),
            final(self).spec_drained() == old(self).spec_drained(),
            final(self).spec_sink() == old(self).spec_sink(),
            final(self).spec_graph() == old(self).spec_graph().remove(id),
            match removed {
                Some(node) => {
                    &&& old(self).spec_graph().contains(id)
                    &&& node == old(self).spec_graph().nodes[old(self).spec_graph().position(id)]
                },
                None => !old(self).spec_graph().contains(id),
            },
    {
        self.graph.remove_node(id)
    }

    /// Takes the state that follows `msg`, given how the sink answered the
    /// command that `msg` asked of it, and passes a failure of the sink on.
    /// A context that ends up terminated releases its nodes.
    pub fn settle(
        &mut self,
        msg: AudioRenderThreadMsg,
        answer: Result<(), AudioSinkError>,
    ) -> (result: Result<(), AudioSinkError>)
        ensures
            result == answer,
            final(self).spec_state() == settled_state(old(self).spec_state(), msg, answer is Ok),
            final(self).spec_drained() == settled_drained(
                old(self).spec_state(),
                old(self).spec_drained(),
                msg,
                answer is Ok,
            ),
            final(self).spec_graph() == Self::settled_graph(
                old(self).spec_graph(),
                final(self).spec_state(),
            ),
            final(self).spec_sink() == old(self).spec_sink(),
            final(self).same_identity(old(self)),
            old(self).wf() ==> final(self).wf(),
    {
        let (next, command) = transition(self.state, msg);
        let ok = answer.is_ok();
        let eos_while_running = matches!(msg, AudioRenderThreadMsg::SinkEos) && matches!(
            self.state,
            RenderState::Running
        );
        if eos_while_running {
            self.drained = true;
        } else if matches!(command, SinkCommand::Play) && ok {
            self.drained = false;
        }
        if ok || matches!(next, RenderState::Terminated) {
            self.state = next;
        } else {
            self.state = RenderState::Stopped;
        }
        if matches!(self.state, RenderState::Terminated) {
            self.graph.clear();
        }
        answer
    }

    /// Obeys one control message: gives the sink the command that the
    /// message asks for, if any, and takes the state that follows.
    ///
    /// Where the message asks nothing of the sink, the sink is not touched
    /// and the call succeeds. Where the sink fails, the context stops (or
    /// terminates, if it was shutting down) and the sink's error is
    /// returned.
    pub fn handle_message(&mut self, msg: AudioRenderThreadMsg) -> (result: Result<
        (),
        AudioSinkError,
    >)
        ensures
            final(self).spec_state() == settled_state(old(self).spec_state(), msg, result is Ok),
            final(self).spec_drained() == settled_drained(
                old(self).spec_state(),
                old(self).spec_drained(),
                msg,
                result is Ok,
            ),
            final(self).spec_graph() == Self::settled_graph(
                old(self).spec_graph(),
                final(self).spec_state(),
            ),
            sink_command(old(self).spec_state(), msg) == SinkCommand::Nothing ==> result is Ok
                && final(self).spec_sink() == old(self).spec_sink(),
            sink_command(old(self).spec_state(), msg) == SinkCommand::Play ==> exists|s: &mut S|
                *s == old(self).spec_sink() && *final(s) == final(self).spec_sink()
                    && call_ensures(S::play, (s,), result),
            sink_command(old(self).spec_state(), msg) == SinkCommand::Stop ==> exists|s: &mut S|
                *s == old(self).spec_sink() && *final(s) == final(self).spec_sink()
                    && call_ensures(S::stop, (s,), result),
            final(self).same_identity(old(self)),
            old(self).wf() ==> final(self).wf(),
    {
        let (_, command) = transition(self.state, msg);
        let answer = match command {
            SinkCommand::Nothing => Ok(()),
            SinkCommand::Play => self.sink.play(),
            SinkCommand::Stop => self.sink.stop(),
        };
        self.settle(msg, answer)
    }

    /// Renders the block of one iteration, given what the sink answered
    /// when asked whether it has enough data.
    ///
    /// A block is rendered exactly where the verdict is `Push`. It is then
    /// what `AudioGraph::render` returns on the graph of the context and the
    /// shape of its blocks, and the graph is as that call left it. Otherwise
    /// nothing is rendered, the reason is returned, and the context stays
    /// exactly as it is.
    pub fn render_block(&mut self, enough: bool) -> (rendered: Result<Chunk, Delivery>)
        ensures
            final(self).same_identity(old(self)),
            final(self).spec_state() == old(self).spec_state(),
            final(self).spec_drained() == old(self).spec_drained(),
            final(self).spec_sink() == old(self).spec_sink(),
            old(self).wf() ==> final(self).wf(),
            match verdict(old(self).spec_state(), old(self).spec_drained(), enough) {
                Verdict::Push => {
                    &&& rendered matches Ok(block)
                    &&& block.conforms(old(self).spec_format())
                    &&& final(self).spec_graph().same_wiring(old(self).spec_graph())
                    &&& old(self).spec_graph().nodes.len() == 0 ==> block.is_silence(
                        old(self).spec_format(),
                    )
                    &&& exists|graph: &mut AudioGraph<N>|
                        graph@ == old(self).spec_graph()
                            && final(graph)@ == final(self).spec_graph() && call_ensures(
                            AudioGraph::<N>::render,
                            (graph, &old(self).spec_format()),
                            block,
                        )
                },
                Verdict::Skip(reason) => {
                    &&& rendered == Err::<Chunk, Delivery>(reason)
                    &&& final(self).spec_graph() == old(self).spec_graph()
                },
            },
    {
        match judge(self.state, self.drained, enough) {
            Verdict::Push => Ok(self.graph.render(&self.format)),
            Verdict::Skip(reason) => Err(reason),
        }
    }

    /// Takes the state that follows an attempt to push a block, given how
    /// the sink answered: a failure stops the context and is passed on.
    pub fn complete_push(&mut self, answer: Result<(), AudioSinkError>) -> (result: Result<
        Delivery,
        AudioSinkError,
    >)
        ensures
            match answer {
                Ok(()) => {
                    &&& result == Ok::<Delivery, AudioSinkError>(Delivery::Pushed)
                    &&& final(self).spec_state() == old(self).spec_state()
                },
                Err(e) => {
                    &&& result == Err::<Delivery, AudioSinkError>(e)
                    &&& final(self).spec_state() == RenderState::Stopped
                },
            },
            final(self).spec_drained() == old(self).spec_drained(),
            final(self).spec_sink() == old(self).spec_sink(),
            final(self).spec_graph() == old(self).spec_graph(),
            final(self).same_identity(old(self)),
    {
        match answer {
            Ok(()) => Ok(Delivery::Pushed),
            Err(e) => {
                self.state = RenderState::Stopped;
                Err(e)
            },
        }
    }

    /// Runs one render iteration: asks the sink whether it has enough data,
    /// and only if the verdict on its answer is `Push` renders one block
    /// through the graph and pushes it to the sink.
    ///
    /// Whatever the sink answers: a context that is not running, or whose
    /// sink has drained, renders and pushes nothing and stays exactly as it
    /// is; an iteration that pushed nothing left the context, its graph and
    /// its sink as they were; a block was pushed only by a running context
    /// whose sink had not drained; and a sink that fails to take the block
    /// stops the context.
    ///
    /// The answers of the sink are named. `Backpressure` is returned only
    /// where `has_enough_data` answered `true`. `push_data` is called only
    /// where it answered `false`, once, with the block that
    /// `AudioGraph::render` returned on the graph of the context; the result
    /// is `Pushed` or the sink's error as `push_data` answered, and the
    /// sink is as that call left it.
    pub fn render_iteration(&mut self) -> (result: Result<Delivery, AudioSinkError>)
        ensures
            final(self).same_identity(old(self)),
            final(self).spec_drained() == old(self).spec_drained(),
            old(self).wf() ==> final(self).wf(),
            final(self).spec_graph().same_wiring(old(self).spec_graph()),
            old(self).spec_state() != RenderState::Running ==> result == Ok::<
                Delivery,
                AudioSinkError,
            >(Delivery::Discarded),
            old(self).spec_state() == RenderState::Running && old(self).spec_drained() ==> result
                == Ok::<Delivery, AudioSinkError>(Delivery::Drained),
            match result {
                Ok(Delivery::Pushed) => {
                    &&& verdict(old(self).spec_state(), old(self).spec_drained(), false)
                        == Verdict::Push
                    &&& final(self).spec_state() == RenderState::Running
                },
                Ok(reason) => {
                    &&& exists|enough: bool|
                        verdict(old(self).spec_state(), old(self).spec_drained(), enough)
                            == Verdict::Skip(reason)
                    &&& final(self).spec_state() == old(self).spec_state()
                    &&& final(self).spec_sink() == old(self).spec_sink()
                    &&& final(self).spec_graph() == old(self).spec_graph()
                },
                Err(_) => {
                    &&& verdict(old(self).spec_state(), old(self).spec_drained(), false)
                        == Verdict::Push
                    &&& final(self).spec_state() == RenderState::Stopped
                },
            },
            result == Ok::<Delivery, AudioSinkError>(Delivery::Backpressure) ==> call_ensures(
                S::has_enough_data,
                (&old(self).spec_sink(),),
                true,
            ),
            (result == Ok::<Delivery, AudioSinkError>(Delivery::Pushed) || result is Err)
                ==> call_ensures(S::has_enough_data, (&old(self).spec_sink(),), false),
            (result == Ok::<Delivery, AudioSinkError>(Delivery::Pushed) || result is Err)
                ==> exists|
                graph: &mut AudioGraph<N>,
                s: &mut S,
                block: Chunk,
                answer: Result<(), AudioSinkError>,
            |
                #![trigger
                    call_ensures(AudioGraph::<N>::render, (graph, &old(self).spec_format()), block),
                    call_ensures(S::push_data, (s, block), answer),
                ]
                graph@ == old(self).spec_graph() && final(graph)@ == final(self).spec_graph()
                    && call_ensures(
                    AudioGraph::<N>::render,
                    (graph, &old(self).spec_format()),
                    block,
                ) && *s == old(self).spec_sink() && *final(s) == final(self).spec_sink()
                    && call_ensures(S::push_data, (s, block), answer) && (match answer {
                    Ok(()) => result == Ok::<Delivery, AudioSinkError>(Delivery::Pushed),
                    Err(e) => result == Err::<Delivery, AudioSinkError>(e),
                }),
    {
        let enough = self.sink.has_enough_data();
        match self.render_block(enough) {
            Ok(block) => {
                let answer = self.sink.push_data(block);
                self.complete_push(answer)
            },
            Err(reason) => {
                assert(verdict(old(self).spec_state(), old(self).spec_drained(), enough)
                    == Verdict::Skip(reason));
                Ok(reason)
            },
        }
    }

    /// Obeys `Start`: does what `handle_message` does with it.
    pub fn start(&mut self) -> (result: Result<(), AudioSinkError>)
        ensures
            final(self).spec_state() == settled_state(
                old(self).spec_state(),
                AudioRenderThreadMsg::Start,
                result is Ok,
            ),
            exists|context: &mut AudioContext<S, N>|
                *context == *old(self) && *final(context) == *final(self) && call_ensures(
                    AudioContext::<S, N>::handle_message,
                    (context, AudioRenderThreadMsg::Start),
                    result,
                ),
    {
        self.handle_message(AudioRenderThreadMsg::Start)
    }

    /// Obeys `Pause`: does what `handle_message` does with it.
    pub fn pause(&mut self) -> (result: Result<(), AudioSinkError>)
        ensures
            final(self).spec_state() == settled_state(
                old(self).spec_state(),
                AudioRenderThreadMsg::Pause,
                result is Ok,
            ),
            exists|context: &mut AudioContext<S, N>|
                *context == *old(self) && *final(context) == *final(self) && call_ensures(
                    AudioContext::<S, N>::handle_message,
                    (context, AudioRenderThreadMsg::Pause),
                    result,
                ),
    {
        self.handle_message(AudioRenderThreadMsg::Pause)
    }

    /// Obeys `Resume`: does what `handle_message` does with it.
    pub fn resume(&mut self) -> (result: Result<(), AudioSinkError>)
        ensures
            final(self).spec_state() == settled_state(
                old(self).spec_state(),
                AudioRenderThreadMsg::Resume,
                result is Ok,
            ),
            exists|context: &mut AudioContext<S, N>|
                *context == *old(self) && *final(context) == *final(self) && call_ensures(
                    AudioContext::<S, N>::handle_message,
                    (context, AudioRenderThreadMsg::Resume),
                    result,
                ),
    {
        self.handle_message(AudioRenderThreadMsg::Resume)
    }

    /// Obeys `Stop`: does what `handle_message` does with it.
    pub fn stop(&mut self) -> (result: Result<(), AudioSinkError>)
        ensures
            final(self).spec_state() == settled_state(
                old(self).spec_state(),
                AudioRenderThreadMsg::Stop,
                result is Ok,
            ),
            exists|context: &mut AudioContext<S, N>|
                *context == *old(self) && *final(context) == *final(self) && call_ensures(
                    AudioContext::<S, N>::handle_message,
                    (context, AudioRenderThreadMsg::Stop),
                    result,
                ),
    {
        self.handle_message(AudioRenderThreadMsg::Stop)
    }

    /// Obeys `Shutdown`: does what `handle_message` does with it. The context
    /// is terminated whatever the sink answers.
    pub fn shutdown(&mut self) -> (result: Result<(), AudioSinkError>)
        ensures
            final(self).spec_state() == RenderState::Terminated,
            exists|context: &mut AudioContext<S, N>|
                *context == *old(self) && *final(context) == *final(self) && call_ensures(
                    AudioContext::<S, N>::handle_message,
                    (context, AudioRenderThreadMsg::Shutdown),
                    result,
                ),
    {
        self.handle_message(AudioRenderThreadMsg::Shutdown)
    }
}

} // verus!
