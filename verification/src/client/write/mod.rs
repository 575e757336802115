//! Batches of records and the broadcast of their outcome.

pub mod batch;
pub mod broadcast;
pub mod cell;
