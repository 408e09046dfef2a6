//! A small feed-forward neural-network engine: tensor shapes, layer
//! descriptors over a shared flat parameter buffer, and the network layout
//! that partitions that buffer between layers.

pub mod layer;
pub mod loss;
pub mod network;
pub mod tensor;
pub mod trainer;
