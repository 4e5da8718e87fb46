//! The audio decoder of a backend that decodes nothing.
use vstd::prelude::*;

verus! {

/// What a caller may ask of a decoder.
#[derive(Clone, Copy, Debug, PartialEq, Eq, Structural)]
pub struct AudioDecoderOptions {
    /// Frames per second of the decoded audio.
    pub sample_rate: u32,
}

/// The ways in which decoding fails.
#[derive(Clone, Copy, Debug, PartialEq, Eq, Structural)]
pub enum AudioDecoderError {
    Backend,
    BufferReadFailed,
    InvalidMediaFormat,
    InvalidSample,
    StateChangeFailed,
}

/// What a decoder reports to its caller, in the order of a decode: that it
/// is ready for a number of channels, decoded sample data for one channel,
/// and last either the end of the data or an error.
#[derive(Debug, PartialEq, Eq)]
pub enum AudioDecoderEvent {
    Ready(u32),
    Progress(Vec<u8>, u32),
    Eos,
    Error(AudioDecoderError),
}

/// A decoder without a codec: it can decode nothing, and says so.
#[derive(Clone, Copy, Debug, PartialEq, Eq, Structural)]
pub struct DummyAudioDecoder;

impl DummyAudioDecoder {
    /// Takes encoded bytes and returns what is to be reported to the
    /// caller. Whatever the bytes and the options, that is one error of the
    /// backend and nothing else: no sample data, and no end of data after
    /// the error.
    pub fn decode(&self, data: Vec<u8>, options: Option<AudioDecoderOptions>) -> (events: Vec<
        AudioDecoderEvent,
    >)
        ensures
            events@.len() == 1,
            events@[0] == AudioDecoderEvent::Error(AudioDecoderError::Backend),
    {
        let mut events: Vec<AudioDecoderEvent> = Vec::new();
        events.push(AudioDecoderEvent::Error(AudioDecoderError::Backend));
        events
    }
}

} // verus!
