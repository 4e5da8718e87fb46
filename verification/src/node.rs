//! The audio node: the unit of work in a render pipeline.
use vstd::prelude::*;

verus! {

/// What every processing node does: work on one block in place.
///
/// The buffer comes with no promise on what it holds. A node that is a
/// source fills it whatever it held; a node that is an effect takes what it
/// holds as the signal to transform. The buffer is the block: a node cannot
/// grow or shrink it.
///
/// The state that a node carries from call to call is not in the node. It
/// is the accumulator, which the caller owns and hands in by reference, so
/// that one node can serve several callers. What an accumulator and a
/// volume are is the node's choice: this library carries both and never
/// looks inside.
///
/// `process` runs on the render loop. It must end in time proportional to
/// the size of the block, and must not wait for I/O or for a lock.
pub trait AudioNodeEngine: Sync + Send {
    /// The state carried from one call to the next.
    type Accumulator;

    /// The measure of volume.
    type Volume;

    /// Processes one block in place, at frequency `freq`, for `rate` frames
    /// per second and `channels` channels per frame, at volume `vol`.
    fn process(
        &self,
        data: &mut [u8],
        accumulator_ref: &mut Self::Accumulator,
        freq: u32,
        rate: u32,
        channels: u32,
        vol: &Self::Volume,
    )
        ensures
            final(data)@.len() == old(data)@.len(),
    ;
}

} // verus!
