//! A verified connector from a stream of flow-telemetry JSON lines to a
//! time-series sink. Each line is decoded into a flow record, filtered to
//! private-use source addresses, transformed into a tagged write unit, and
//! accumulated into bounded batches; a full batch is dispatched with a
//! bounded, fixed-delay retry policy and paced flushes, and a non-empty
//! remainder is flushed once at end of stream. The surrounding process
//! performs the reads, the writes and the sleeps; every decision is made
//! and proved here.

pub mod batch;
pub mod config;
pub mod dispatch;
pub mod ingest;
pub mod pipeline;
pub mod record;
pub mod scope;
pub mod text;
pub mod transform;
