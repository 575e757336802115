//! The result cell of a broadcast: the lock and the notifier that the two
//! sides share, and the one writer of the cell.
//!
//! The record of what was written to the cell is kept beside the cell. It
//! changes nowhere but where the cell is written, and the cell is written
//! nowhere but through its one writer.

use crate::client::write::broadcast::{Error, Result};
use std::sync::Arc;
use vstd::prelude::*;

verus! {

/// The `RwLock` of `lock_api`, which `parking_lot` builds its own on.
#[verifier::external_type_specification]
#[verifier::external_body]
#[verifier::reject_recursive_types(R)]
#[verifier::reject_recursive_types(T)]
pub struct ExRwLock<R, T: ?Sized>(parking_lot::lock_api::RwLock<R, T>);

/// The raw lock of `parking_lot`.
#[verifier::external_type_specification]
#[verifier::external_body]
pub struct ExRawRwLock(parking_lot::RawRwLock);

/// The `Notify` of `tokio`, which wakes waiting tasks.
#[verifier::external_type_specification]
#[verifier::external_body]
pub struct ExNotify(tokio::sync::Notify);

/// What the broadcaster and its receivers share: the result cell behind a
/// lock, and the means to wake those who wait for it.
#[derive(Debug)]
#[verifier::reject_recursive_types(T)]
pub struct Shared<T> {
    data: parking_lot::RwLock<Option<Result<T>>>,
    notify: tokio::sync::Notify,
}

impl<T> Shared<T> {
    /// What wakes those who wait for the cell.
    pub closed spec fn notifier(self) -> tokio::sync::Notify {
        self.notify
    }

    /// What wakes those who wait for the cell.
    pub fn notify(&self) -> (notify: &tokio::sync::Notify)
        ensures
            *notify == self.notifier(),
    {
        &self.notify
    }
}

/// Calls `RwLock::new` of `parking_lot` on an unset cell.
#[verifier::external_body]
fn new_cell<T>() -> parking_lot::RwLock<Option<Result<T>>> {
    parking_lot::RwLock::new(None)
}

/// Calls `Notify::new` of `tokio`.
#[verifier::external_body]
fn new_notify() -> tokio::sync::Notify {
    tokio::sync::Notify::new()
}

/// Calls `read` of the lock and clones what the cell holds at that moment.
/// Nothing is known of it here: the cell may be written in between two reads.
#[verifier::external_body]
pub(crate) fn read_cell<T: Clone>(shared: &Shared<T>) -> Option<Result<T>> {
    shared.data.read().clone()
}

/// The one writer of a result cell, with the record of what it has written
/// and of whether it has woken those who wait.
#[verifier::reject_recursive_types(T)]
pub struct Publisher<T> {
    shared: Arc<Shared<T>>,
    set: bool,
    value: Ghost<Result<T>>,
    woken: Ghost<bool>,
}

impl<T> Publisher<T> {
    /// What this writer shares with the readers of the cell.
    pub closed spec fn channel(&self) -> Shared<T> {
        *self.shared
    }

    /// What this writer has put into the cell, if it has put anything.
    pub closed spec fn written(&self) -> Option<Result<T>> {
        if self.set {
            Some(self.value@)
        } else {
            None
        }
    }

    /// Whether those who wait for the cell were woken after it was written.
    pub closed spec fn woken(&self) -> bool {
        self.woken@
    }

    /// A writer of a new cell, which is unset.
    pub fn new() -> (publisher: Self)
        ensures
            publisher.written() is None,
            !publisher.woken(),
    {
        Publisher {
            shared: Arc::new(Shared { data: new_cell(), notify: new_notify() }),
            set: false,
            value: Ghost(Err(Error::Dropped)),
            woken: Ghost(false),
        }
    }

    /// Whether the cell was written.
    pub fn is_set(&self) -> (set: bool)
        ensures
            set == (self.written() is Some),
        opens_invariants none
        no_unwind
    {
        self.set
    }

    /// What this writer shares, for one more reader.
    pub fn share(&self) -> (shared: Arc<Shared<T>>)
        ensures
            *shared == self.channel(),
    {
        Arc::clone(&self.shared)
    }

    /// Calls `write` of the lock and puts `result` into the cell, and notes
    /// that the cell is written.
    ///
    /// The cell then holds `result`: nothing else writes it. The call is
    /// declared not to unwind, as what a destructor calls has to be: taking
    /// the lock does not panic, and the cell that is overwritten is unset.
    #[verifier::external_body]
    pub(crate) fn store(&mut self, result: Result<T>)
        requires
            old(self).written() is None,
        ensures
            final(self).written() == Some(result),
            final(self).channel() == old(self).channel(),
            final(self).woken() == old(self).woken(),
        opens_invariants none
        no_unwind
    {
        *self.shared.data.write() = Some(result);
        self.set = true;
    }

    /// Calls `notify_waiters` of `Notify`, which wakes every task that waits
    /// for the cell.
    ///
    /// The call is declared not to unwind, as what a destructor calls has to
    /// be. It does not panic itself; it would pass on the panic of a waker
    /// that panics when woken, which the wakers of an async runtime do not.
    #[verifier::external_body]
    pub(crate) fn wake(&mut self)
        requires
            old(self).written() is Some,
        ensures
            final(self).woken(),
            final(self).written() == old(self).written(),
            final(self).channel() == old(self).channel(),
        opens_invariants none
        no_unwind
    {
        self.shared.notify.notify_waiters();
    }
}

impl<T: Copy> Publisher<T> {
    /// Calls `read` of the lock of `shared` and copies what the cell holds.
    ///
    /// `shared` is what this writer shares, so the cell is the one that this
    /// writer writes; and the writer is borrowed, so nothing writes the cell
    /// during the call. The cell therefore holds what the writer has put into
    /// it.
    #[verifier::external_body]
    pub(crate) fn read_back(&self, shared: &Shared<T>) -> (held: Option<Result<T>>)
        requires
            *shared == self.channel(),
        ensures
            held == self.written(),
    {
        *shared.data.read()
    }
}

} // verus!
