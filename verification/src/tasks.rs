//! The set of long-running tasks: for each, the sender that cancels it and the
//! handle that tells when it has ended.

use tokio::sync::mpsc::Receiver;
use tokio::sync::mpsc::Sender;
use tokio::task::JoinHandle;
use vstd::prelude::*;

verus! {

/// `tokio::sync::mpsc::Sender<T>`, the sending end of a bounded channel.
/// Opaque to the verifier.
#[verifier::external_type_specification]
#[verifier::external_body]
#[verifier::reject_recursive_types(T)]
pub struct ExSender<T>(tokio::sync::mpsc::Sender<T>);

/// `tokio::sync::mpsc::Receiver<T>`, the receiving end of a bounded channel.
/// Opaque to the verifier.
#[verifier::external_type_specification]
#[verifier::external_body]
#[verifier::reject_recursive_types(T)]
pub struct ExReceiver<T>(tokio::sync::mpsc::Receiver<T>);

/// `tokio::task::JoinHandle<T>`, which completes when its task has ended.
/// Opaque to the verifier.
#[verifier::external_type_specification]
#[verifier::external_body]
#[verifier::reject_recursive_types(T)]
pub struct ExJoinHandle<T>(tokio::task::JoinHandle<T>);

/// `tokio::task::JoinError`, with which a join handle reports a task that
/// panicked or was aborted. No function of this crate names it; it is declared
/// because the verifier reads, together with `JoinHandle`, the handle's
/// `Future` impl, whose output holds this type, and refuses the handle without
/// it. Opaque to the verifier.
#[verifier::external_type_specification]
#[verifier::external_body]
pub struct ExJoinError(tokio::task::JoinError);

/// The room of a channel that carries a one-shot signal: one message.
pub const SIGNAL_CAPACITY: usize = 1;

/// `tokio::sync::mpsc::channel`: a new bounded channel with room for
/// `capacity` messages. The call panics on a capacity of zero and on one above
/// an eighth of the largest `usize`, so both are left out. Nothing is claimed
/// of the two ends.
#[verifier::external_body]
pub(crate) fn signal_channel(capacity: usize) -> (Sender<()>, Receiver<()>)
    requires
        0 < capacity <= usize::MAX / 8,
{
    tokio::sync::mpsc::channel(capacity)
}

/// The records of the running tasks, in the order in which they were added.
#[derive(Debug)]
pub struct TaskSet {
    channels: Vec<Sender<()>>,
    handles: Vec<JoinHandle<()>>,
    shut_down: bool,
}

impl TaskSet {
    /// The cancel senders that have not been drained yet, oldest first.
    pub closed spec fn channels(&self) -> Seq<Sender<()>> {
        self.channels@
    }

    /// The join handles that have not been taken yet, oldest first.
    pub closed spec fn handles(&self) -> Seq<JoinHandle<()>> {
        self.handles@
    }

    /// Whether shutdown has begun.
    pub closed spec fn shut_down(&self) -> bool {
        self.shut_down
    }

    /// A set without tasks.
    pub fn new() -> (set: TaskSet)
        ensures
            set.channels() == Seq::<Sender<()>>::empty(),
            set.handles() == Seq::<JoinHandle<()>>::empty(),
            !set.shut_down(),
    {
        TaskSet { channels: Vec::new(), handles: Vec::new(), shut_down: false }
    }

    /// Whether shutdown has begun.
    pub fn is_shut_down(&self) -> (shut_down: bool)
        ensures
            shut_down == self.shut_down(),
    {
        self.shut_down
    }

    /// The number of tasks whose cancel sender is still held.
    pub fn len(&self) -> (n: usize)
        ensures
            n == self.channels().len(),
    {
        self.channels.len()
    }

    /// The number of tasks whose join handle is still held.
    pub fn awaited(&self) -> (n: usize)
        ensures
            n == self.handles().len(),
    {
        self.handles.len()
    }

    /// Records a task by its cancel sender and its join handle. Once shutdown
    /// has begun no task may be added.
    pub fn add(&mut self, channel: Sender<()>, handle: JoinHandle<()>)
        requires
            !old(self).shut_down(),
        ensures
            final(self).channels() == old(self).channels().push(channel),
            final(self).handles() == old(self).handles().push(handle),
            !final(self).shut_down(),
    {
        self.handles.push(handle);
        self.channels.push(channel);
    }

    /// Begins shutdown: hands out every cancel sender held, in registration
    /// order, for the caller to deliver one message on each, and keeps none.
    pub fn shutdown(&mut self) -> (senders: Vec<Sender<()>>)
        ensures
            senders@ == old(self).channels(),
            final(self).channels() == Seq::<Sender<()>>::empty(),
            final(self).handles() == old(self).handles(),
            final(self).shut_down(),
    {
        let mut senders: Vec<Sender<()>> = Vec::new();
        std::mem::swap(&mut self.channels, &mut senders);
        self.shut_down = true;
        senders
    }

    /// Hands out every join handle held, in registration order, for the caller
    /// to await, and keeps none.
    pub fn join(&mut self) -> (handles: Vec<JoinHandle<()>>)
        ensures
            handles@ == old(self).handles(),
            final(self).handles() == Seq::<JoinHandle<()>>::empty(),
            final(self).channels() == old(self).channels(),
            final(self).shut_down() == old(self).shut_down(),
    {
        let mut handles: Vec<JoinHandle<()>> = Vec::new();
        std::mem::swap(&mut self.handles, &mut handles);
        handles
    }
}

} // verus!
