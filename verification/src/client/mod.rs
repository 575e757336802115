//! The client side of writing: records, the handles that report what became
//! of them, and the batches they are gathered in.

pub mod write;

pub use crate::client::write::batch::{ArrowLogWriteBatch, InnerWriteBatch, WriteBatch};
pub use crate::client::write::broadcast;

use crate::client::write::broadcast::{BatchWriteResult, BroadcastOnceReceiver, ReceiveStep};
use crate::row::GenericRow;
use vstd::prelude::*;

verus! {

/// A record to be written: one row of a table.
pub struct WriteRecord<'a> {
    pub row: GenericRow<'a>,
}

impl<'a> WriteRecord<'a> {
    /// The record that holds `row`.
    pub fn new(row: GenericRow<'a>) -> (record: Self)
        ensures
            record.row == row,
    {
        WriteRecord { row }
    }
}

/// What the caller who appended a record holds: through it the outcome of
/// the record's batch is observed, once there is one.
#[derive(Debug, Clone)]
pub struct ResultHandle {
    receiver: BroadcastOnceReceiver<BatchWriteResult>,
}

impl View for ResultHandle {
    type V = BroadcastOnceReceiver<BatchWriteResult>;

    /// The receiver that this handle observes through.
    closed spec fn view(&self) -> BroadcastOnceReceiver<BatchWriteResult> {
        self.receiver
    }
}

impl ResultHandle {
    /// The handle that observes through `receiver`.
    pub fn new(receiver: BroadcastOnceReceiver<BatchWriteResult>) -> (handle: Self)
        ensures
            handle@ == receiver,
    {
        ResultHandle { receiver }
    }

    /// The outcome of the batch, if there is one yet: the result of sending
    /// it, or the error that says that the batch went away without one.
    pub fn result(&self) -> Option<broadcast::Result<BatchWriteResult>> {
        self.receiver.peek()
    }

    /// Looks for the outcome and says whether the caller is done or has to
    /// wait.
    pub fn poll(&self) -> ReceiveStep<BatchWriteResult> {
        self.receiver.poll()
    }

    /// The receiver that this handle observes through.
    pub fn receiver(&self) -> (receiver: &BroadcastOnceReceiver<BatchWriteResult>)
        ensures
            *receiver == self@,
    {
        &self.receiver
    }
}

} // verus!
