//! Canonical block projection and wire encoding for a chain indexer's
//! per-block execution results.
//!
//! The library consumes a fully populated domain block (header, chunks,
//! transactions, receipts, execution outcomes and their error trees),
//! projects it onto a stable wire schema, serializes the wire message with
//! explicit field numbering, and renders one framed text line per block for
//! a line-oriented sink.

pub mod actions;
pub mod decode;
pub mod dm;
pub mod domain;
pub mod emit;
pub mod encode;
pub mod firehose;
pub mod outcomes;
pub mod pb;
pub mod project;
pub mod proto;
pub mod scalar;
pub mod taxonomy;
pub mod util;
