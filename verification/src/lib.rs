//! A media backend without devices, and the core that every backend shares:
//! the stream registry, the audio node and sink contracts, and the audio
//! context that renders blocks through a graph of nodes into a sink.

pub mod backend;
pub mod block;
pub mod context;
pub mod decoder;
pub mod graph;
pub mod node;
pub mod player;
pub mod registry;
pub mod render;
pub mod sink;
pub mod stream;
pub mod webrtc;
