//! The render state machine: the states of an audio context, the control
//! messages that move it, and the rules that decide when a block may go to
//! the sink.
use vstd::prelude::*;
use crate::sink::AudioSinkError;

verus! {

/// The states of an audio context.
#[derive(Clone, Copy, Debug, PartialEq, Eq, Structural)]
pub enum RenderState {
    /// Made, never started.
    Created,
    /// Rendering blocks.
    Running,
    /// Started and held; `Resume` continues.
    Paused,
    /// Stopped; only `Shutdown` is still obeyed.
    Stopped,
    /// Shut down: the render loop has ended.
    Terminated,
}

/// The control signals that any thread may send to the render loop.
#[derive(Clone, Copy, Debug, PartialEq, Eq, Structural)]
pub enum AudioRenderThreadMsg {
    Start,
    Pause,
    Resume,
    Stop,
    Shutdown,
    /// The sink has played all it was given.
    SinkEos,
}

/// What can befall the render loop from outside the context.
#[derive(Clone, Copy, Debug, PartialEq, Eq, Structural)]
pub enum LoopFault {
    /// A node panicked while it processed a block.
    NodePanicked,
    /// Every sender of control messages is gone.
    ChannelClosed,
}

/// What a transition asks of the sink.
#[derive(Clone, Copy, Debug, PartialEq, Eq, Structural)]
pub enum SinkCommand {
    Nothing,
    Play,
    Stop,
}

/// What the render loop does next.
#[derive(Clone, Copy, Debug, PartialEq, Eq, Structural)]
pub enum RenderAction {
    /// Wait for the next control message.
    Wait,
    /// Run one render iteration.
    Render,
    /// Leave the loop.
    Exit,
}

/// How one render iteration ended.
#[derive(Clone, Copy, Debug, PartialEq, Eq, Structural)]
pub enum Delivery {
    /// The sink took the block.
    Pushed,
    /// The sink had enough data; no block was rendered.
    Backpressure,
    /// The sink has drained and was not restarted; no block was rendered.
    Drained,
    /// The context is not running; no block was rendered.
    Discarded,
}

/// What is decided about one iteration before a block is rendered.
#[derive(Clone, Copy, Debug, PartialEq, Eq, Structural)]
pub enum Verdict {
    /// Render a block and hand it to the sink.
    Push,
    /// Render nothing, for the reason given.
    Skip(Delivery),
}

/// The state that `msg` asks for in `state`. Messages that do not apply
/// are ignored; nothing leads out of `Terminated`, and only `Shutdown`
/// leads out of `Stopped`.
pub open spec fn next_state(state: RenderState, msg: AudioRenderThreadMsg) -> RenderState {
    match (state, msg) {
        (RenderState::Terminated, _) => RenderState::Terminated,
        (_, AudioRenderThreadMsg::Shutdown) => RenderState::Terminated,
        (RenderState::Created, AudioRenderThreadMsg::Start) => RenderState::Running,
        (RenderState::Running, AudioRenderThreadMsg::Pause) => RenderState::Paused,
        (RenderState::Paused, AudioRenderThreadMsg::Resume) => RenderState::Running,
        (RenderState::Running, AudioRenderThreadMsg::Stop) => RenderState::Stopped,
        (RenderState::Paused, AudioRenderThreadMsg::Stop) => RenderState::Stopped,
        _ => state,
    }
}

/// What `msg` in `state` asks of the sink: `Play` on entering `Running`,
/// `Stop` on leaving it, nothing otherwise.
pub open spec fn sink_command(state: RenderState, msg: AudioRenderThreadMsg) -> SinkCommand {
    let next = next_state(state, msg);
    if state != RenderState::Running && next == RenderState::Running {
        SinkCommand::Play
    } else if state == RenderState::Running && next != RenderState::Running {
        SinkCommand::Stop
    } else {
        SinkCommand::Nothing
    }
}

/// The state a context falls to when the sink fails on the way to `target`:
/// `Stopped`, unless the context was shutting down.
pub open spec fn fault_state(target: RenderState) -> RenderState {
    if target == RenderState::Terminated {
        RenderState::Terminated
    } else {
        RenderState::Stopped
    }
}

/// The state after `msg`, given whether the sink did what was asked of it.
pub open spec fn settled_state(
    state: RenderState,
    msg: AudioRenderThreadMsg,
    sink_ok: bool,
) -> RenderState {
    if sink_ok {
        next_state(state, msg)
    } else {
        fault_state(next_state(state, msg))
    }
}

/// Whether the sink counts as drained after `msg`: an end of stream while
/// running sets the mark, a successful restart clears it.
pub open spec fn settled_drained(
    state: RenderState,
    drained: bool,
    msg: AudioRenderThreadMsg,
    sink_ok: bool,
) -> bool {
    if msg == AudioRenderThreadMsg::SinkEos && state == RenderState::Running {
        true
    } else if sink_command(state, msg) == SinkCommand::Play && sink_ok {
        false
    } else {
        drained
    }
}

/// What is decided about one iteration: a block is rendered and goes to
/// the sink only in a running context whose sink has not drained and does
/// not report enough data.
pub open spec fn verdict(state: RenderState, drained: bool, enough: bool) -> Verdict {
    if state != RenderState::Running {
        Verdict::Skip(Delivery::Discarded)
    } else if drained {
        Verdict::Skip(Delivery::Drained)
    } else if enough {
        Verdict::Skip(Delivery::Backpressure)
    } else {
        Verdict::Push
    }
}

/// What the render loop does next in `state`.
pub open spec fn action(state: RenderState, drained: bool) -> RenderAction {
    if state == RenderState::Terminated {
        RenderAction::Exit
    } else if state == RenderState::Running && !drained {
        RenderAction::Render
    } else {
        RenderAction::Wait
    }
}

/// The state after the messages `steps`, first to last, each with whether
/// the sink did what the message asked of it.
pub open spec fn run(state: RenderState, steps: Seq<(AudioRenderThreadMsg, bool)>) -> RenderState
    decreases steps.len(),
{
    if steps.len() == 0 {
        state
    } else {
        run(settled_state(state, steps.first().0, steps.first().1), steps.drop_first())
    }
}

/// Whether the sink counts as drained after the messages `steps`.
pub open spec fn run_drained(
    state: RenderState,
    drained: bool,
    steps: Seq<(AudioRenderThreadMsg, bool)>,
) -> bool
    decreases steps.len(),
{
    if steps.len() == 0 {
        drained
    } else {
        run_drained(
            settled_state(state, steps.first().0, steps.first().1),
            settled_drained(state, drained, steps.first().0, steps.first().1),
            steps.drop_first(),
        )
    }
}

/// A context that is stopped or terminated never gives a block to the sink
/// again: whatever messages follow and whatever the sink answers, the
/// context stays stopped or terminated, every iteration is discarded, and the
/// render loop is never told to render.
pub proof fn lemma_stopped_never_pushes(
    state: RenderState,
    drained: bool,
    steps: Seq<(AudioRenderThreadMsg, bool)>,
    enough: bool,
)
    requires
        state == RenderState::Stopped || state == RenderState::Terminated,
    ensures
        run(state, steps) == RenderState::Stopped || run(state, steps) == RenderState::Terminated,
        verdict(run(state, steps), run_drained(state, drained, steps), enough) == Verdict::Skip(
            Delivery::Discarded,
        ),
        action(run(state, steps), run_drained(state, drained, steps)) != RenderAction::Render,
    decreases steps.len(),
{
    if steps.len() > 0 {
        lemma_stopped_never_pushes(
            settled_state(state, steps.first().0, steps.first().1),
            settled_drained(state, drained, steps.first().0, steps.first().1),
            steps.drop_first(),
            enough,
        );
    }
}

/// Nothing leads out of `Terminated`.
pub proof fn lemma_terminated_is_final(state: RenderState, steps: Seq<(AudioRenderThreadMsg, bool)>)
    requires
        state == RenderState::Terminated,
    ensures
        run(state, steps) == RenderState::Terminated,
    decreases steps.len(),
{
    if steps.len() > 0 {
        lemma_terminated_is_final(
            settled_state(state, steps.first().0, steps.first().1),
            steps.drop_first(),
        );
    }
}

/// `Shutdown` terminates a context from every state, whatever the sink
/// answers.
pub proof fn lemma_shutdown_terminates(state: RenderState, sink_ok: bool)
    ensures
        settled_state(state, AudioRenderThreadMsg::Shutdown, sink_ok) == RenderState::Terminated,
{
}

/// A sink that reports enough data gets no block on that iteration, in
/// whatever state the context is.
pub proof fn lemma_enough_data_never_pushes(state: RenderState, drained: bool)
    ensures
        verdict(state, drained, true) != Verdict::Push,
{
}

/// A block goes to the sink exactly from a running context whose sink has
/// not drained and does not report enough data.
pub proof fn lemma_push_exactly_when(state: RenderState, drained: bool, enough: bool)
    ensures
        verdict(state, drained, enough) == Verdict::Push <==> state == RenderState::Running
            && !drained && !enough,
{
}

/// Once the sink has drained, no block goes to it until it was started
/// again: messages that start nothing leave the mark in place.
pub proof fn lemma_drained_until_restart(
    state: RenderState,
    steps: Seq<(AudioRenderThreadMsg, bool)>,
    enough: bool,
)
    requires
        forall|i: int|
            0 <= i < steps.len() ==> steps[i].0 != AudioRenderThreadMsg::Resume && steps[i].0
                != AudioRenderThreadMsg::Start,
    ensures
        run_drained(state, true, steps),
        verdict(run(state, steps), run_drained(state, true, steps), enough) != Verdict::Push,
    decreases steps.len(),
{
    if steps.len() > 0 {
        let first = steps.first();
        assert(first == steps[0]);
        assert(sink_command(state, first.0) != SinkCommand::Play);
        assert forall|i: int| 0 <= i < steps.drop_first().len() implies steps.drop_first()[i].0
            != AudioRenderThreadMsg::Resume && steps.drop_first()[i].0
            != AudioRenderThreadMsg::Start by {
            assert(steps.drop_first()[i] == steps[i + 1]);
        }
        lemma_drained_until_restart(
            settled_state(state, first.0, first.1),
            steps.drop_first(),
            enough,
        );
    }
}

/// What the render loop does after an iteration that ended in `outcome`:
/// after a push, what `action` says; after an iteration that pushed
/// nothing, it waits for the next control message before it renders again.
pub open spec fn action_after(
    state: RenderState,
    drained: bool,
    outcome: Result<Delivery, AudioSinkError>,
) -> RenderAction {
    if outcome != Ok::<Delivery, AudioSinkError>(Delivery::Pushed) && action(state, drained)
        == RenderAction::Render {
        RenderAction::Wait
    } else {
        action(state, drained)
    }
}

/// The control message that a fault stands for. A node that panicked has
/// failed the graph, which stops the context; a loop that no sender can
/// reach any more shuts down.
pub open spec fn fault_message(fault: LoopFault) -> AudioRenderThreadMsg {
    match fault {
        LoopFault::NodePanicked => AudioRenderThreadMsg::Stop,
        LoopFault::ChannelClosed => AudioRenderThreadMsg::Shutdown,
    }
}

/// Returns the control message that `fault` stands for.
pub fn message_for_fault(fault: LoopFault) -> (msg: AudioRenderThreadMsg)
    ensures
        msg == fault_message(fault),
{
    match fault {
        LoopFault::NodePanicked => AudioRenderThreadMsg::Stop,
        LoopFault::ChannelClosed => AudioRenderThreadMsg::Shutdown,
    }
}

/// Computes the state that `msg` asks for and what it asks of the sink.
pub fn transition(state: RenderState, msg: AudioRenderThreadMsg) -> (step: (
    RenderState,
    SinkCommand,
))
    ensures
        step.0 == next_state(state, msg),
        step.1 == sink_command(state, msg),
{
    let next = match (state, msg) {
        (RenderState::Terminated, _) => RenderState::Terminated,
        (_, AudioRenderThreadMsg::Shutdown) => RenderState::Terminated,
        (RenderState::Created, AudioRenderThreadMsg::Start) => RenderState::Running,
        (RenderState::Running, AudioRenderThreadMsg::Pause) => RenderState::Paused,
        (RenderState::Paused, AudioRenderThreadMsg::Resume) => RenderState::Running,
        (RenderState::Running, AudioRenderThreadMsg::Stop) => RenderState::Stopped,
        (RenderState::Paused, AudioRenderThreadMsg::Stop) => RenderState::Stopped,
        _ => state,
    };
    let was_running = matches!(state, RenderState::Running);
    let will_run = matches!(next, RenderState::Running);
    let command = if !was_running && will_run {
        SinkCommand::Play
    } else if was_running && !will_run {
        SinkCommand::Stop
    } else {
        SinkCommand::Nothing
    };
    (next, command)
}

/// Decides about one iteration, given what the sink reported.
pub fn judge(state: RenderState, drained: bool, enough: bool) -> (v: Verdict)
    ensures
        v == verdict(state, drained, enough),
{
    if !matches!(state, RenderState::Running) {
        Verdict::Skip(Delivery::Discarded)
    } else if drained {
        Verdict::Skip(Delivery::Drained)
    } else if enough {
        Verdict::Skip(Delivery::Backpressure)
    } else {
        Verdict::Push
    }
}

} // verus!
