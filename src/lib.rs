//! Incremental ingestion of time-bucketed history intervals and the shared
//! filtered-query protocol that serves them back.
//!
//! - `text`: character-level helpers and the decimal and float grammars of the wire format.
//! - `granularity`: the bucket width the source aggregates by.
//! - `decode`: field decoders; float measures are kept as their literal text.
//! - `records`: the four record families, their wire forms, and page decoding.
//! - `watermark`: the monotone resume point of one resource type.
//! - `engine`: the fetch-retry state machine that drives ingestion.
//! - `writer`: inserts, rows, and what a failed write means.
//! - `query`: query specifications, the builder, SQL text and binds.
//! - `params`: each resource type's query parameters and schema descriptor.

pub mod decode;
pub mod engine;
pub mod granularity;
pub mod params;
pub mod query;
pub mod records;
pub mod text;
pub mod watermark;
pub mod writer;
