//! Client-side write path of a table store: typed rows are gathered into
//! per-bucket batches, encoded into columns, and the outcome of sending a batch
//! is handed to everyone who contributed a row to it.

pub mod client;
pub mod error;
pub mod metadata;
pub mod record;
pub mod row;

pub use crate::metadata::BucketId;
