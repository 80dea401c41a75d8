//! Decision logic of the NFT mint worker: the mint conversation with NFTPort,
//! the consumer of mint requests and the publisher of mint results, each a
//! state machine driven by the outside work that the application performs.
pub mod text;
pub mod json;
pub mod mint;
pub mod producer;
pub mod consumer;
pub mod settings;
