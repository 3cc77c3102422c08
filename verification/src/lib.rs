//! A non-blocking message relay over UDP.
//!
//! Application code enqueues and dequeues address-tagged byte payloads
//! through a synchronous, non-blocking interface, while two background
//! loops (run by the host application) perform the actual socket I/O.

pub mod addr;
pub mod channel;
pub mod message;
pub mod order;
pub mod relay;

pub use addr::SocketAddr;
pub use addr::try_parse_socket_addr;
pub use channel::AsyncChannel;
pub use channel::RecvError;
pub use channel::SendError;
pub use channel::TryRecvError;
pub use channel::TrySendError;
pub use channel::await_dequeue;
pub use channel::enqueue;
pub use channel::try_dequeue;
pub use message::BUFFER_MAX_SIZE;
pub use message::Message;
pub use message::ReadErrorAction;
pub use message::ReadFailure;
pub use message::classify_read_error;
pub use message::inbound_message;
pub use message::recv_message;
pub use relay::LoopEndpoints;
pub use relay::Network;
pub use relay::SendStepAction;
pub use relay::send_loop_decision;
