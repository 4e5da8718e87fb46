//! Audio blocks: the fixed-size unit of sample data that moves from the
//! graph to the sink.
use vstd::prelude::*;

verus! {

/// The shape that every block of one context has: fixed when the context is
/// made and never changed after.
#[derive(Clone, Copy, Debug, PartialEq, Eq, Structural)]
pub struct BlockFormat {
    /// Frames per second.
    pub sample_rate: u32,
    /// Channels per frame.
    pub channels: u32,
    /// Bytes of sample data in one block.
    pub block_len: usize,
}

/// One block of raw sample data with its channel count and sample rate.
#[derive(Debug, PartialEq, Eq)]
pub struct Chunk {
    pub data: Vec<u8>,
    pub channels: u32,
    pub sample_rate: u32,
}

/// Sample data of `len` bytes that holds silence: every byte is zero.
pub open spec fn silent_data(len: nat) -> Seq<u8> {
    Seq::new(len, |k: int| 0u8)
}

impl Chunk {
    /// The block has exactly the shape `format`.
    pub open spec fn conforms(&self, format: BlockFormat) -> bool {
        &&& self.data@.len() == format.block_len
        &&& self.channels == format.channels
        &&& self.sample_rate == format.sample_rate
    }

    /// The block of shape `format` that holds silence: every byte is zero.
    pub open spec fn is_silence(&self, format: BlockFormat) -> bool {
        &&& self.conforms(format)
        &&& forall|i: int| 0 <= i < self.data@.len() ==> self.data@[i] == 0u8
    }

    /// A block over `data`.
    pub fn new(data: Vec<u8>, channels: u32, sample_rate: u32) -> (chunk: Chunk)
        ensures
            chunk.data@ == data@,
            chunk.channels == channels,
            chunk.sample_rate == sample_rate,
    {
        Chunk { data, channels, sample_rate }
    }

    /// A silent block of shape `format`: what a graph without nodes renders.
    pub fn silence(format: &BlockFormat) -> (chunk: Chunk)
        ensures
            chunk.is_silence(*format),
            chunk.data@ == silent_data(format.block_len as nat),
    {
        let mut data: Vec<u8> = Vec::new();
        let mut filled: usize = 0;
        while filled < format.block_len
            invariant
                filled <= format.block_len,
                data@.len() == filled,
                forall|i: int| 0 <= i < data@.len() ==> data@[i] == 0u8,
            decreases format.block_len - filled,
        {
            data.push(0u8);
            filled = filled + 1;
        }
        assert(data@ =~= silent_data(format.block_len as nat));
        Chunk { data, channels: format.channels, sample_rate: format.sample_rate }
    }

    /// The number of bytes of sample data in the block.
    pub fn len(&self) -> (n: usize)
        ensures
            n == self.data@.len(),
    {
        self.data.len()
    }

    /// Whether the block has exactly the shape `format`.
    pub fn conforms_to(&self, format: &BlockFormat) -> (ok: bool)
        ensures
            ok == self.conforms(*format),
    {
        self.data.len() == format.block_len && self.channels == format.channels
            && self.sample_rate == format.sample_rate
    }
}

} // verus!
