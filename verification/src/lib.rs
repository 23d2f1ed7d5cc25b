//! A fixed-capacity single-producer/single-consumer ring buffer and the trade
//! enrichment pipeline built on it.
//!
//! Raw trades and instrument reference records flow in on two ring buffers,
//! are combined by one enrichment worker, and leave as enriched trades on a
//! third. The library never waits and never reads a clock: a full or empty
//! buffer is a state the caller sees, and pausing, timing and threading are the
//! host's business.

pub mod data;
pub mod feed;
pub mod pipeline_model;
pub mod ring_buffer;
pub mod ring_model;
pub mod trade_processor;
