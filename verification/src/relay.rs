//! The relay controller: owns the two handoff queues and exposes the
//! non-blocking `try_send` / `try_recv` interface to the application. The
//! host application owns the controller's lifetime, calls [`Network::startup`]
//! exactly once, and runs the two background loops on the handles that
//! `startup` returns.

use vstd::prelude::*;
use crate::addr::SocketAddr;
use crate::addr::spec_parse_socket_addr;
use crate::addr::try_parse_socket_addr;
use crate::addr::valid_socket_addr_string;
use crate::channel::AsyncChannel;
use crate::channel::RecvError;
use crate::channel::TryRecvError;
use crate::channel::TrySendError;
use crate::channel::channel_send_paired;
use crate::channel::channel_try_recv_paired;
use crate::channel::clone_receiver;
use crate::channel::clone_sender;
use crate::channel::new_channel_pair;
use crate::channel::receiver_buf;
use crate::channel::sender_buf;
use crate::message::Message;

verus! {

/// The handles on which the host application runs the two background
/// loops: the send loop drains `outbound`, the receive loop fills
/// `inbound`.
pub struct LoopEndpoints {
    pub outbound: flume::Receiver<Message>,
    pub inbound: flume::Sender<Message>,
}

/// The relay controller: an outbound queue drained by the send loop and an
/// inbound queue filled by the receive loop.
pub struct Network {
    send_channel: AsyncChannel,
    recv_channel: AsyncChannel,
    started: bool,
}

impl Network {
    /// Whether [`Network::startup`] has been called.
    pub closed spec fn is_started(&self) -> bool {
        self.started
    }

    /// The identity of the outbound queue's buffer: the one `try_send`
    /// feeds and the send loop's endpoint drains.
    pub closed spec fn outbound_end(&self) -> nat {
        receiver_buf(self.send_channel.receiver)
    }

    /// The identity of the inbound queue's buffer: the one the receive
    /// loop's endpoint feeds and `try_recv` drains.
    pub closed spec fn inbound_end(&self) -> nat {
        sender_buf(self.recv_channel.sender)
    }

    /// Well-formed relay: each of the two queues pairs its sender and its
    /// receiver over one buffer — so what `try_send` enqueues is what the
    /// send loop's endpoint dequeues, and what the receive loop's endpoint
    /// enqueues is what `try_recv` dequeues — and the two queues are
    /// distinct buffers, so the outbound path does not feed the inbound
    /// one. It also means the relay keeps one sender of its inbound queue
    /// and one receiver of its outbound queue alive for its own lifetime.
    pub closed spec fn wf(&self) -> bool {
        &&& sender_buf(self.send_channel.sender) == self.outbound_end()
        &&& receiver_buf(self.recv_channel.receiver) == self.inbound_end()
        &&& self.outbound_end() != self.inbound_end()
    }

    /// A fresh relay: both queues allocated, each a connected pair over its
    /// own distinct buffer; no loop running yet.
    pub fn new() -> (n: Network)
        ensures
            !n.is_started(),
            n.wf(),
    {
        let (send_channel, recv_channel) = new_channel_pair();
        Network { send_channel, recv_channel, started: false }
    }

    /// Non-blocking dequeue from the inbound queue. `Empty` is the expected
    /// steady-state result when no datagram has arrived since the last
    /// poll. On a well-formed relay `Disconnected` never occurs: the relay
    /// holds a sender of its own inbound queue for its lifetime, so the
    /// queue never loses its last producer.
    pub fn try_recv(&self) -> (r: Result<Message, TryRecvError>)
        ensures
            self.wf() ==> (r matches Err(e) ==> e != TryRecvError::Disconnected),
    {
        channel_try_recv_paired(&self.recv_channel.sender, &self.recv_channel.receiver)
    }

    /// Non-blocking enqueue onto the outbound queue. On a well-formed
    /// relay this always succeeds: the queue is unbounded and the relay
    /// holds a receiver of it for its lifetime, so it can neither fill nor
    /// lose its last consumer. Were it torn down all the same, the message
    /// comes back unchanged inside `Disconnected`; `Full` is never
    /// returned.
    pub fn try_send(&self, message: Message) -> (r: Result<(), TrySendError<Message>>)
        ensures
            self.wf() ==> r is Ok,
            r matches Err(e) ==> e == TrySendError::Disconnected(message),
    {
        match channel_send_paired(&self.send_channel.sender, &self.send_channel.receiver, message) {
            Ok(()) => Ok(()),
            Err(e) => Err(TrySendError::Disconnected(e.0)),
        }
    }

    /// Marks the relay started and hands out the queue ends for the two
    /// background loops: the returned endpoints are over the relay's own
    /// buffers — `ends.outbound` drains the queue `try_send` feeds, and
    /// `ends.inbound` feeds the queue `try_recv` drains — and the relay
    /// keeps those queues, with anything already pending in them. The
    /// caller must then bind the socket (fatally on failure) and spawn the
    /// loops; it must call this exactly once, which the precondition
    /// states.
    pub fn startup(&mut self) -> (ends: LoopEndpoints)
        requires
            !old(self).is_started(),
        ensures
            final(self).is_started(),
            receiver_buf(ends.outbound) == old(self).outbound_end(),
            sender_buf(ends.inbound) == old(self).inbound_end(),
            final(self).outbound_end() == old(self).outbound_end(),
            final(self).inbound_end() == old(self).inbound_end(),
            final(self).wf() == old(self).wf(),
    {
        self.started = true;
        LoopEndpoints {
            outbound: clone_receiver(&self.send_channel.receiver),
            inbound: clone_sender(&self.recv_channel.sender),
        }
    }

    /// Parses an `ip:port` string. The caller must hand it a well-formed
    /// string (it is only ever invoked on known literals or pre-validated
    /// configuration); [`try_parse_socket_addr`] is the total form.
    pub fn parse_socket_addr(addr: &str) -> (r: SocketAddr)
        requires
            valid_socket_addr_string(addr@),
        ensures
            Some(r) == spec_parse_socket_addr(addr@),
    {
        match try_parse_socket_addr(addr) {
            Some(a) => a,
            None => vstd::pervasive::unreached(),
        }
    }
}

/// What the send loop does with one dequeue attempt's outcome.
pub enum SendStepAction {
    /// Write the message's payload to its target address, best effort: a
    /// failed write is reported and the message dropped, with no retry.
    Transmit(Message),
    /// The outbound queue's last sender is gone: report it and keep
    /// looping — a quiescent branch while the controller holds its own
    /// sender for its lifetime.
    ReportDisconnect,
}

/// The send loop's decision on one dequeue attempt: a dequeued message is
/// transmitted; a disconnected queue is reported; the loop continues in
/// either case and never stops sending.
pub fn send_loop_decision(next: Result<Message, RecvError>) -> (a: SendStepAction)
    ensures
        next matches Ok(m) ==> a == SendStepAction::Transmit(m),
        next is Err ==> a is ReportDisconnect,
{
    match next {
        Ok(m) => SendStepAction::Transmit(m),
        Err(_) => SendStepAction::ReportDisconnect,
    }
}

} // verus!
