//! The audio sink: where rendered blocks leave for the output device.
use std::sync::mpsc::Sender;
use vstd::prelude::*;
use crate::block::Chunk;
use crate::render::AudioRenderThreadMsg;

verus! {

/// `std::sync::mpsc::Sender`: the sending half of a channel. Nothing is
/// claimed of it; a sender is only carried to the sink that keeps it.
#[verifier::external_type_specification]
#[verifier::external_body]
#[verifier::reject_recursive_types(T)]
pub struct ExSender<T>(Sender<T>);

/// The ways in which a sink fails.
#[derive(Clone, Copy, Debug, PartialEq, Eq, Structural)]
pub enum AudioSinkError {
    /// The device behind the sink failed.
    Backend,
    /// The sink did not take a block.
    BufferPushFailed,
    /// The sink did not start or stop.
    StateChangeFailed,
}

/// The output end of a render pipeline.
///
/// A context drives exactly one sink. It calls `init` once, `play` when it
/// starts to run, `stop` when it stops running, and before each block asks
/// `has_enough_data`; only on `false` does it call `push_data`. A sink that
/// has played all it was given says so by sending `SinkEos` on the channel
/// it got in `init`. What a sink answers is the sink's own business: the
/// context is verified for every answer.
pub trait AudioSink: Sized {
    /// Prepares the sink for `sample_rate` frames per second and gives it
    /// the channel on which it may send control messages to the render
    /// loop, such as a stop request after a device fault.
    fn init(&mut self, sample_rate: u32, sender: Sender<AudioRenderThreadMsg>) -> (result: Result<
        (),
        AudioSinkError,
    >)
    ;

    /// Starts playback.
    fn play(&mut self) -> (result: Result<(), AudioSinkError>)
    ;

    /// Stops playback.
    fn stop(&mut self) -> (result: Result<(), AudioSinkError>)
    ;

    /// Whether the sink holds enough data for now. Must not block.
    fn has_enough_data(&self) -> (enough: bool)
    ;

    /// Takes one block for playback.
    fn push_data(&mut self, chunk: Chunk) -> (result: Result<(), AudioSinkError>)
    ;
}

/// A sink with no device behind it: it accepts every command, keeps
/// nothing, and always reports that it has enough data.
#[derive(Clone, Copy, Debug, PartialEq, Eq, Structural)]
pub struct DummyAudioSink;

impl AudioSink for DummyAudioSink {
    fn init(&mut self, sample_rate: u32, sender: Sender<AudioRenderThreadMsg>) -> (result: Result<
        (),
        AudioSinkError,
    >)
        ensures
            result == Ok::<(), AudioSinkError>(()),
            *final(self) == *old(self),
    {
        Ok(())
    }

    fn play(&mut self) -> (result: Result<(), AudioSinkError>)
        ensures
            result == Ok::<(), AudioSinkError>(()),
            *final(self) == *old(self),
    {
        Ok(())
    }

    fn stop(&mut self) -> (result: Result<(), AudioSinkError>)
        ensures
            result == Ok::<(), AudioSinkError>(()),
            *final(self) == *old(self),
    {
        Ok(())
    }

    fn has_enough_data(&self) -> (enough: bool)
        ensures
            enough,
    {
        true
    }

    fn push_data(&mut self, chunk: Chunk) -> (result: Result<(), AudioSinkError>)
        ensures
            result == Ok::<(), AudioSinkError>(()),
            *final(self) == *old(self),
    {
        Ok(())
    }
}

} // verus!
