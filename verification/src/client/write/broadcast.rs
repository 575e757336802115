//! A result that is published once and observed by any number of receivers.
//!
//! The result cell starts unset. It is set once: to the value that the
//! broadcaster publishes, or to the error [`Error::Dropped`] when the
//! broadcaster goes away without having published. Once set it never changes.
//! Receivers share the cell with the broadcaster and may outlive it.

use crate::client::write::cell::{read_cell, Publisher, Shared};
use std::sync::Arc;
use vstd::prelude::*;

verus! {

/// A result of this module: an error is [`Error`] unless said otherwise.
pub type Result<T, E = Error> = std::result::Result<T, E>;

/// The outcome of sending a batch.
pub type BatchWriteResult = Result<(), Error>;

/// Why a result was never delivered.
#[derive(Debug, Clone, Copy, PartialEq, Eq, Structural)]
pub enum Error {
    /// The broadcaster went away before it published a value.
    Dropped,
}

/// What happens to a result cell.
pub enum Event<T> {
    /// The broadcaster publishes a value.
    Broadcast(T),
    /// The broadcaster goes away.
    Drop,
}

/// The cell after the broadcaster publishes `value`: set to it if the cell
/// was unset, and as it was if not.
pub open spec fn published<T>(cell: Option<Result<T>>, value: T) -> Option<Result<T>> {
    match cell {
        None => Some(Ok(value)),
        Some(_) => cell,
    }
}

/// The cell after the broadcaster goes away: set to the error if the cell was
/// unset, and as it was if not.
pub open spec fn abandoned<T>(cell: Option<Result<T>>) -> Option<Result<T>> {
    match cell {
        None => Some(Err(Error::Dropped)),
        Some(_) => cell,
    }
}

/// The cell after one event.
pub open spec fn after<T>(cell: Option<Result<T>>, event: Event<T>) -> Option<Result<T>> {
    match event {
        Event::Broadcast(value) => published(cell, value),
        Event::Drop => abandoned(cell),
    }
}

/// The cell after a sequence of events, from the first to the last.
pub open spec fn after_all<T>(cell: Option<Result<T>>, events: Seq<Event<T>>) -> Option<Result<T>>
    decreases events.len(),
{
    if events.len() == 0 {
        cell
    } else {
        after(after_all(cell, events.drop_last()), events.last())
    }
}

/// What a receiver does after it has looked at the cell.
#[derive(Debug, PartialEq, Eq)]
pub enum ReceiveStep<T> {
    /// The cell is set: the receiver has its result.
    Done(Result<T>),
    /// The cell is unset: the receiver waits to be woken.
    Wait,
}

/// What a receiver does when it has observed `observed` in the cell: it is
/// done as soon as the cell is set, and waits while it is not.
pub open spec fn step_of<T>(observed: Option<Result<T>>) -> ReceiveStep<T> {
    match observed {
        Some(result) => ReceiveStep::Done(result),
        None => ReceiveStep::Wait,
    }
}

/// What a receiver does when it has observed `observed` in the cell: it is
/// done as soon as the cell is set, and waits while it is not.
///
/// To receive is to register for the wake-up, look at the cell and take this
/// step; and, if the step is to wait, to look again when woken.
pub fn receive_step<T>(observed: Option<Result<T>>) -> (step: ReceiveStep<T>)
    ensures
        step == step_of(observed),
{
    match observed {
        Some(result) => ReceiveStep::Done(result),
        None => ReceiveStep::Wait,
    }
}

/// A cell that is set stays as it is, whatever happens.
pub proof fn lemma_set_once<T>(cell: Option<Result<T>>, events: Seq<Event<T>>)
    requires
        cell is Some,
    ensures
        after_all(cell, events) == cell,
    decreases events.len(),
{
    if events.len() > 0 {
        lemma_set_once(cell, events.drop_last());
    }
}

/// The first event decides. Before it the cell is unset and a receiver
/// waits. Whatever follows it, the cell holds the value that was published
/// first, or the error if the broadcaster went away first, and every receiver
/// that looks at the cell, whenever it was made, is done with that result. So
/// a second broadcast never replaces the first value, and after any event at
/// all no receiver waits.
pub proof fn lemma_first_event_decides<T>(events: Seq<Event<T>>)
    requires
        events.len() > 0,
    ensures
        step_of(after_all(None::<Result<T>>, Seq::empty())) is Wait,
        after_all(None, events) == after(None, events[0]),
        events[0] matches Event::Broadcast(v) ==> step_of(after_all(None, events))
            == ReceiveStep::Done(Ok::<T, Error>(v)),
        events[0] is Drop ==> step_of(after_all(None, events)) == ReceiveStep::Done(
            Err::<T, Error>(Error::Dropped),
        ),
        step_of(after_all(None, events)) is Done,
    decreases events.len(),
{
    if events.len() == 1 {
        assert(events.drop_last().len() == 0);
    } else {
        lemma_first_event_decides(events.drop_last());
        assert(events.drop_last()[0] == events[0]);
    }
}

/// The receiving side of a broadcast. It can be cloned freely, and stays
/// valid when the broadcaster is gone.
#[derive(Debug, Clone)]
#[verifier::reject_recursive_types(T)]
pub struct BroadcastOnceReceiver<T> {
    shared: Arc<Shared<T>>,
}

impl<T> BroadcastOnceReceiver<T> {
    /// What this receiver shares with its broadcaster and with the other
    /// receivers of that broadcaster.
    pub closed spec fn channel(&self) -> Shared<T> {
        *self.shared
    }
}

impl<T: Clone + Send + Sync> BroadcastOnceReceiver<T> {
    /// Returns `Some(_)` if the cell is set, without waiting.
    pub fn peek(&self) -> Option<Result<T>> {
        read_cell(&self.shared)
    }

    /// Looks at the cell and says whether the receiver is done or has to
    /// wait.
    pub fn poll(&self) -> ReceiveStep<T> {
        receive_step(self.peek())
    }

    /// What wakes the tasks that wait for the cell to be set. A task that
    /// waits registers here first and looks at the cell after that, so that it
    /// cannot miss a result that is published in between.
    pub fn notifier(&self) -> (notify: &tokio::sync::Notify)
        ensures
            *notify == self.channel().notifier(),
    {
        self.shared.notify()
    }
}

/// What a broadcaster is: what it shares with its receivers, what it has put
/// into the cell, and whether it has woken those who waited for that.
#[verifier::reject_recursive_types(T)]
pub struct Broadcast<T> {
    /// The cell and the notifier that the receivers share.
    pub channel: Shared<T>,
    /// What the cell holds.
    pub cell: Option<Result<T>>,
    /// Whether the tasks that waited for the cell were woken.
    pub woken: bool,
}

impl<T> Broadcast<T> {
    /// This broadcaster after it has published `value` on an unset cell: the
    /// cell holds the value, those who waited are woken, and what is shared
    /// is the same.
    pub open spec fn sent(self, value: T) -> Broadcast<T> {
        Broadcast { channel: self.channel, cell: published(self.cell, value), woken: true }
    }

    /// This broadcaster as it goes away: as it was if the cell was set; else
    /// with the error in the cell and those who waited woken.
    pub open spec fn gone(self) -> Broadcast<T> {
        if self.cell is Some {
            self
        } else {
            Broadcast { channel: self.channel, cell: abandoned(self.cell), woken: true }
        }
    }
}

/// The sending side of a broadcast: it publishes one result to all receivers.
#[verifier::reject_recursive_types(T)]
pub struct BroadcastOnce<T> where T: Send + Sync {
    publisher: Publisher<T>,
}

impl<T> View for BroadcastOnce<T> where T: Send + Sync {
    type V = Broadcast<T>;

    closed spec fn view(&self) -> Broadcast<T> {
        Broadcast {
            channel: self.publisher.channel(),
            cell: self.publisher.written(),
            woken: self.publisher.woken(),
        }
    }
}

impl<T> BroadcastOnce<T> where T: Send + Sync {
    /// What this broadcaster shares with its receivers.
    pub open spec fn channel(&self) -> Shared<T> {
        self@.channel
    }
}

impl<T> Default for BroadcastOnce<T> where T: Send + Sync {
    fn default() -> (b: Self)
        ensures
            b@.cell is None,
            !b@.woken,
    {
        Self { publisher: Publisher::new() }
    }
}

impl<T: Clone + Send + Sync> BroadcastOnce<T> {
    /// Returns a receiver that observes the cell of this broadcaster: it
    /// shares with the broadcaster what the broadcaster shares.
    pub fn receiver(&self) -> (receiver: BroadcastOnceReceiver<T>)
        ensures
            receiver.channel() == self.channel(),
    {
        BroadcastOnceReceiver { shared: self.publisher.share() }
    }

    /// Whether a result was published.
    pub fn is_set(&self) -> (set: bool)
        ensures
            set == (self@.cell is Some),
    {
        self.publisher.is_set()
    }

    /// Publishes `r` to all receivers, those made before and those made
    /// after: puts it into the cell that they share, and wakes those that
    /// wait.
    ///
    /// A result is published once: the cell must be unset.
    pub fn broadcast(&mut self, r: T)
        requires
            old(self)@.cell is None,
        ensures
            final(self)@ == old(self)@.sent(r),
            final(self).channel() == old(self).channel(),
    {
        self.publisher.store(Ok(r));
        self.publisher.wake();
    }
}

impl<T: Copy + Send + Sync> BroadcastOnce<T> {
    /// What `receiver`, a receiver of this broadcaster, observes in the cell
    /// while the broadcaster is borrowed: what the broadcaster has put there.
    ///
    /// So every receiver made from a broadcaster, before or after it has
    /// published, observes nothing while it has not published, and the value
    /// once it has.
    pub fn observed_by(&self, receiver: &BroadcastOnceReceiver<T>) -> (observed: Option<Result<T>>)
        requires
            receiver.channel() == self.channel(),
        ensures
            observed == self@.cell,
    {
        self.publisher.read_back(&receiver.shared)
    }
}

impl<T> Drop for BroadcastOnce<T> where T: Send + Sync {
    /// A broadcaster that goes away without having published sets the cell
    /// to the error and wakes those that wait, so that no receiver waits for
    /// ever.
    fn drop(&mut self)
        ensures
            final(self)@ == old(self)@.gone(),
            final(self).channel() == old(self).channel(),
        opens_invariants none
        no_unwind
    {
        if !self.publisher.is_set() {
            self.publisher.store(Err(Error::Dropped));
            self.publisher.wake();
        }
    }
}

} // verus!
