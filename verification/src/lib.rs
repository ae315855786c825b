//! Tickflow: a verified single-producer/single-consumer message pipeline.
//!
//! The library connects an abstract message source to an abstract message
//! sink through a bounded, ordered channel of batches. The pipeline is
//! modelled as an explicit state machine whose steps are verified, so the
//! delivery guarantees (order, batch integrity, fault isolation and
//! backpressure) hold for every interleaving of the two sides.

pub mod adapters;
pub mod alpaca;
pub mod channel;
pub mod config;
pub mod messaging;
pub mod pipeline;
pub mod polymarket;
pub mod processor;
pub mod time;
pub mod websocket;
pub mod yahoo;
