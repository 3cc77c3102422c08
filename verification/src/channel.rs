//! The handoff queue: an unbounded, thread-safe, multi-producer
//! multi-consumer FIFO buffer pairing a sender handle and a receiver handle
//! over the same storage. The storage and the handles come from the `flume`
//! crate; the operations below are the relay's interface to them.
//!
//! A handle is shared between the application thread and a background loop,
//! so what a dequeue returns depends on what other holders of the paired
//! handles have done meanwhile; the contracts therefore state only what
//! holds of every outcome.

use vstd::prelude::*;
use crate::message::Message;

verus! {

/// The error of a failed enqueue: every receiver handle of the queue has
/// been dropped, and the item is handed back.
pub struct SendError<T>(pub T);

/// The error of a failed non-blocking send. On the relay's unbounded queues
/// only `Disconnected` can occur; `Full` is the bounded-queue case, kept so
/// that callers written against a bounded variant still compile.
pub enum TrySendError<T> {
    /// The queue was created with a capacity bound and is full.
    Full(T),
    /// Every receiver handle of the queue has been dropped.
    Disconnected(T),
}

/// The error of a non-blocking dequeue probe.
#[derive(Clone, Copy, PartialEq, Eq, Structural, Debug)]
pub enum TryRecvError {
    /// No item is pending; the expected steady-state result.
    Empty,
    /// Every sender handle has been dropped and the buffer is empty.
    Disconnected,
}

/// The error of a blocking dequeue: every sender handle has been dropped
/// and the buffer is empty.
#[derive(Clone, Copy, PartialEq, Eq, Structural, Debug)]
pub enum RecvError {
    Disconnected,
}

#[verifier::external_type_specification]
#[verifier::external_body]
#[verifier::reject_recursive_types(T)]
pub struct ExSender<T>(flume::Sender<T>);

#[verifier::external_type_specification]
#[verifier::external_body]
#[verifier::reject_recursive_types(T)]
pub struct ExReceiver<T>(flume::Receiver<T>);

/// The identity of the buffer a sender handle feeds. Which buffer a handle
/// belongs to is fixed at its creation and never changes, so it is a
/// function of the handle alone; the trusted items below say which handles
/// share a buffer, and nothing else is assumed of the name.
pub uninterp spec fn sender_buf(tx: flume::Sender<Message>) -> nat;

/// The identity of the buffer a receiver handle drains.
pub uninterp spec fn receiver_buf(rx: flume::Receiver<Message>) -> nat;

/// A queue as the relay holds it: both handles over one unbounded buffer.
pub struct AsyncChannel {
    pub sender: flume::Sender<Message>,
    pub receiver: flume::Receiver<Message>,
}

impl AsyncChannel {
    /// Relies on `flume::unbounded`: a fresh unbounded channel whose two
    /// handles share one empty buffer.
    #[verifier::external_body]
    pub fn new() -> (ch: Self)
        ensures
            sender_buf(ch.sender) == receiver_buf(ch.receiver),
    {
        let (sender, receiver) = flume::unbounded();
        AsyncChannel { sender, receiver }
    }
}

/// Relies on `flume::unbounded`, called twice: each call allocates its own
/// fresh shared buffer, so the result is two connected pairs over two
/// distinct buffers.
#[verifier::external_body]
pub(crate) fn new_channel_pair() -> (chs: (AsyncChannel, AsyncChannel))
    ensures
        sender_buf(chs.0.sender) == receiver_buf(chs.0.receiver),
        sender_buf(chs.1.sender) == receiver_buf(chs.1.receiver),
        receiver_buf(chs.0.receiver) != receiver_buf(chs.1.receiver),
{
    let (sender0, receiver0) = flume::unbounded();
    let (sender1, receiver1) = flume::unbounded();
    (
        AsyncChannel { sender: sender0, receiver: receiver0 },
        AsyncChannel { sender: sender1, receiver: receiver1 },
    )
}

/// Relies on `flume::Sender::send`: on an unbounded channel it never blocks,
/// succeeds while any receiver handle exists, and on failure hands the item
/// back inside the error.
#[verifier::external_body]
fn channel_send<T>(tx: &flume::Sender<T>, item: T) -> (r: Result<(), SendError<T>>)
    ensures
        r matches Err(e) ==> e.0 == item,
{
    match tx.send(item) {
        Ok(()) => Ok(()),
        Err(flume::SendError(it)) => Err(SendError(it)),
    }
}

/// Relies on `flume::Sender::send` with a receiver of the same channel
/// borrowed for the call: flume reports a send disconnected only once every
/// receiver handle is gone, and the borrowed `rx` keeps one alive, so the
/// unbounded send then always succeeds. On failure the item comes back
/// inside the error.
#[verifier::external_body]
#[allow(unused_variables)]
pub(crate) fn channel_send_paired(
    tx: &flume::Sender<Message>,
    rx: &flume::Receiver<Message>,
    item: Message,
) -> (r: Result<(), SendError<Message>>)
    ensures
        sender_buf(*tx) == receiver_buf(*rx) ==> r is Ok,
        r matches Err(e) ==> e.0 == item,
{
    match tx.send(item) {
        Ok(()) => Ok(()),
        Err(flume::SendError(it)) => Err(SendError(it)),
    }
}

/// Relies on `flume::Receiver::try_recv` with a sender of the same channel
/// borrowed for the call: flume reports a dequeue disconnected only once
/// every sender handle is gone, and the borrowed `tx` keeps one alive, so
/// the non-blocking probe then returns an item or `Empty`, never
/// `Disconnected`.
#[verifier::external_body]
#[allow(unused_variables)]
pub(crate) fn channel_try_recv_paired(
    tx: &flume::Sender<Message>,
    rx: &flume::Receiver<Message>,
) -> (r: Result<Message, TryRecvError>)
    ensures
        sender_buf(*tx) == receiver_buf(*rx) ==> (r matches Err(e) ==> e
            != TryRecvError::Disconnected),
{
    match rx.try_recv() {
        Ok(item) => Ok(item),
        Err(flume::TryRecvError::Empty) => Err(TryRecvError::Empty),
        Err(flume::TryRecvError::Disconnected) => Err(TryRecvError::Disconnected),
    }
}

/// Relies on `flume::Receiver::try_recv`: a non-blocking probe that returns
/// the oldest pending item, or reports the buffer empty, or reports every
/// sender handle dropped.
#[verifier::external_body]
fn channel_try_recv<T>(rx: &flume::Receiver<T>) -> (r: Result<T, TryRecvError>) {
    match rx.try_recv() {
        Ok(item) => Ok(item),
        Err(flume::TryRecvError::Empty) => Err(TryRecvError::Empty),
        Err(flume::TryRecvError::Disconnected) => Err(TryRecvError::Disconnected),
    }
}

/// Relies on `flume::Receiver::recv`: blocks the calling thread until an
/// item is available or every sender handle has been dropped.
#[verifier::external_body]
fn channel_recv<T>(rx: &flume::Receiver<T>) -> (r: Result<T, RecvError>) {
    match rx.recv() {
        Ok(item) => Ok(item),
        Err(flume::RecvError::Disconnected) => Err(RecvError::Disconnected),
    }
}

/// Relies on `flume::Sender::clone`: another sender handle over the same
/// buffer.
#[verifier::external_body]
pub(crate) fn clone_sender(tx: &flume::Sender<Message>) -> (r: flume::Sender<Message>)
    ensures
        sender_buf(r) == sender_buf(*tx),
{
    tx.clone()
}

/// Relies on `flume::Receiver::clone`: another receiver handle over the same
/// buffer (not a broadcast: each item is still delivered once).
#[verifier::external_body]
pub(crate) fn clone_receiver(rx: &flume::Receiver<Message>) -> (r: flume::Receiver<Message>)
    ensures
        receiver_buf(r) == receiver_buf(*rx),
{
    rx.clone()
}

/// Enqueues `item`. On an unbounded queue this never blocks; it fails only
/// when the paired receiving side has been entirely dropped, and then hands
/// the item back unchanged.
pub fn enqueue<T>(tx: &flume::Sender<T>, item: T) -> (r: Result<(), SendError<T>>)
    ensures
        r matches Err(e) ==> e.0 == item,
{
    channel_send(tx, item)
}

/// Non-blocking dequeue probe: the oldest pending item, or `Empty`, or
/// `Disconnected` once no producer remains and the buffer is drained.
pub fn try_dequeue<T>(rx: &flume::Receiver<T>) -> (r: Result<T, TryRecvError>) {
    channel_try_recv(rx)
}

/// Blocking dequeue: waits until an item is available or every sender
/// handle has been dropped. Used by the send loop, never by the
/// application-facing interface.
pub fn await_dequeue<T>(rx: &flume::Receiver<T>) -> (r: Result<T, RecvError>) {
    channel_recv(rx)
}

} // verus!
