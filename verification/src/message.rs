//! The relay's data unit: an address-tagged byte payload, and the receive
//! step that turns a datagram into one.

use vstd::prelude::*;
use crate::addr::SocketAddr;
use crate::channel::SendError;
use crate::channel::enqueue;

verus! {

/// The size of the receive buffer in bytes: a received datagram longer than
/// this is truncated and the excess discarded.
pub const BUFFER_MAX_SIZE: usize = 2000;

/// An address-tagged byte payload. Immutable after construction. For an
/// outbound message the address is the destination; for an inbound one it
/// is the sender.
#[derive(Debug)]
pub struct Message {
    /// The source or destination address.
    pub address: SocketAddr,
    /// The raw bytes of the message.
    pub payload: Vec<u8>,
}

impl Message {
    pub fn new(address: SocketAddr, payload: Vec<u8>) -> (m: Message)
        ensures
            m.address == address,
            m.payload@ == payload@,
    {
        Message { address, payload }
    }

    pub fn address(&self) -> (r: &SocketAddr)
        ensures
            *r == self.address,
    {
        &self.address
    }

    pub fn payload(&self) -> (r: &Vec<u8>)
        ensures
            r@ == self.payload@,
    {
        &self.payload
    }
}

/// `data` cut to the receive-buffer size: unchanged if it fits, else its
/// first [`BUFFER_MAX_SIZE`] bytes.
pub open spec fn truncated(data: Seq<u8>) -> Seq<u8> {
    if data.len() <= BUFFER_MAX_SIZE {
        data
    } else {
        data.take(BUFFER_MAX_SIZE as int)
    }
}

/// The receive step on one datagram: a message tagged with the datagram's
/// source address, carrying the datagram's bytes cut to the receive-buffer
/// size.
pub fn inbound_message(source: SocketAddr, data: Vec<u8>) -> (m: Message)
    ensures
        m.address == source,
        m.payload@ == truncated(data@),
        m.payload@.len() <= BUFFER_MAX_SIZE,
        data@.len() >= BUFFER_MAX_SIZE ==> m.payload@.len() == BUFFER_MAX_SIZE,
{
    let mut payload = data;
    payload.truncate(BUFFER_MAX_SIZE);
    Message::new(source, payload)
}

/// Builds the inbound message for a received datagram and enqueues it for
/// the application. On failure (the inbound queue torn down) the datagram
/// is handed back inside the error and dropped by the caller; there is no
/// re-delivery.
pub fn recv_message(source: SocketAddr, data: Vec<u8>, recv_channel: &flume::Sender<Message>) -> (r:
    Result<(), SendError<Message>>)
    ensures
        r matches Err(e) ==> e.0.address == source && e.0.payload@ == truncated(data@),
{
    let m = inbound_message(source, data);
    enqueue(recv_channel, m)
}

/// How the receive loop classifies a failed socket read.
#[derive(Clone, Copy, PartialEq, Eq, Structural, Debug)]
pub enum ReadFailure {
    /// The benign notification a connectionless socket can get when a
    /// previous send hit an unreachable peer.
    ConnectionReset,
    /// Any other read error.
    Other,
}

/// What the receive loop does about a failed read.
#[derive(Clone, Copy, PartialEq, Eq, Structural, Debug)]
pub enum ReadErrorAction {
    /// Say nothing and keep receiving.
    Ignore,
    /// Report the error and keep receiving.
    Report,
}

/// The receive loop's decision on a failed read: a connection-reset
/// notification is ignored silently, every other error is reported; the
/// loop goes on receiving in either case.
pub fn classify_read_error(failure: ReadFailure) -> (a: ReadErrorAction)
    ensures
        a is Ignore <==> failure is ConnectionReset,
{
    match failure {
        ReadFailure::ConnectionReset => ReadErrorAction::Ignore,
        ReadFailure::Other => ReadErrorAction::Report,
    }
}

} // verus!
