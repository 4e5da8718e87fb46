//! The player of a backend that decodes nothing.
//!
//! Times are whole milliseconds; volume and playback rate are whole
//! thousandths, so that 1000 stands for full volume and for normal speed.
use std::ops::Range;
use vstd::prelude::*;
use crate::stream::MediaStreamId;

verus! {

/// How the data of a player arrives.
#[derive(Clone, Copy, Debug, PartialEq, Eq, Structural)]
pub enum StreamType {
    /// Data of unknown length that cannot be sought in.
    Stream,
    /// Data in which the player may seek.
    Seekable,
}

/// The ways in which a player fails.
#[derive(Clone, Copy, Debug, PartialEq, Eq, Structural)]
pub enum PlayerError {
    Backend,
    BufferPushFailed,
    EnoughData,
    EndOfStreamFailed,
    NonSeekableStream,
    SeekOutOfRange,
    SetStreamFailed,
    SetTrackFailed,
}

/// A player that accepts every command and every byte, plays nothing and
/// never has anything buffered.
#[derive(Clone, Copy, Debug, PartialEq, Eq, Structural)]
pub struct DummyPlayer;

impl DummyPlayer {
    /// Accepts the command to play.
    pub fn play(&self) -> (result: Result<(), PlayerError>)
        ensures
            result == Ok::<(), PlayerError>(()),
    {
        Ok(())
    }

    /// Accepts the command to pause.
    pub fn pause(&self) -> (result: Result<(), PlayerError>)
        ensures
            result == Ok::<(), PlayerError>(()),
    {
        Ok(())
    }

    /// Accepts the command to stop.
    pub fn stop(&self) -> (result: Result<(), PlayerError>)
        ensures
            result == Ok::<(), PlayerError>(()),
    {
        Ok(())
    }

    /// Accepts a position to seek to, in milliseconds.
    pub fn seek(&self, position_ms: u64) -> (result: Result<(), PlayerError>)
        ensures
            result == Ok::<(), PlayerError>(()),
    {
        Ok(())
    }

    /// Accepts the mute setting.
    pub fn set_mute(&self, muted: bool) -> (result: Result<(), PlayerError>)
        ensures
            result == Ok::<(), PlayerError>(()),
    {
        Ok(())
    }

    /// Accepts a volume, in thousandths of full volume.
    pub fn set_volume(&self, volume_permille: u32) -> (result: Result<(), PlayerError>)
        ensures
            result == Ok::<(), PlayerError>(()),
    {
        Ok(())
    }

    /// Accepts the total size of the input, in bytes.
    pub fn set_input_size(&self, size: u64) -> (result: Result<(), PlayerError>)
        ensures
            result == Ok::<(), PlayerError>(()),
    {
        Ok(())
    }

    /// Accepts a playback rate, in thousandths of normal speed.
    pub fn set_rate(&self, rate_permille: u32) -> (result: Result<(), PlayerError>)
        ensures
            result == Ok::<(), PlayerError>(()),
    {
        Ok(())
    }

    /// Accepts encoded data, and drops it.
    pub fn push_data(&self, data: Vec<u8>) -> (result: Result<(), PlayerError>)
        ensures
            result == Ok::<(), PlayerError>(()),
    {
        Ok(())
    }

    /// Accepts the end of the input.
    pub fn end_of_stream(&self) -> (result: Result<(), PlayerError>)
        ensures
            result == Ok::<(), PlayerError>(()),
    {
        Ok(())
    }

    /// Returns the buffered time ranges, in milliseconds: there are none,
    /// whatever was pushed.
    pub fn buffered(&self) -> (result: Result<Vec<Range<u64>>, PlayerError>)
        ensures
            result matches Ok(ranges) && ranges@.len() == 0,
    {
        Ok(Vec::new())
    }

    /// Accepts a stream to play from; `only_stream` says whether it
    /// replaces all others.
    pub fn set_stream(&self, stream: &MediaStreamId, only_stream: bool) -> (result: Result<
        (),
        PlayerError,
    >)
        ensures
            result == Ok::<(), PlayerError>(()),
    {
        Ok(())
    }

    /// Whether frames are rendered on the GPU: never.
    pub fn render_use_gl(&self) -> (uses_gl: bool)
        ensures
            !uses_gl,
    {
        false
    }

    /// Accepts the switch of an audio track.
    pub fn set_audio_track_enabled(&self, track: i32, enabled: bool) -> (result: Result<
        (),
        PlayerError,
    >)
        ensures
            result == Ok::<(), PlayerError>(()),
    {
        Ok(())
    }

    /// Accepts the switch of a video track.
    pub fn set_video_track_enabled(&self, track: i32, enabled: bool) -> (result: Result<
        (),
        PlayerError,
    >)
        ensures
            result == Ok::<(), PlayerError>(()),
    {
        Ok(())
    }

    /// The number of this player among the media instances of its owner:
    /// always zero.
    pub fn get_id(&self) -> (id: usize)
        ensures
            id == 0,
    {
        0
    }

    /// Accepts the mute setting of the owner.
    pub fn mute(&self, muted: bool) -> (result: Result<(), ()>)
        ensures
            result == Ok::<(), ()>(()),
    {
        Ok(())
    }
}

} // verus!
