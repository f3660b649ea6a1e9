//! Market-data ingestion core: record models, the bulk-insert statements
//! written for them, the stream listener's decisions (batching, flushing on
//! a timer, reconnecting) and the proofs that batching loses no record.

pub mod models;
pub mod database;
pub mod ingest;
pub mod batching;
pub mod endpoint;
pub mod text;
pub mod protocol;
