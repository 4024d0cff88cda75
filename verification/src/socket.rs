//! What sockets report when sending or receiving fails, and how their protocols behave.

use vstd::prelude::*;

verus! {

/// Represents an error when sending data through a socket.
///
/// Contains the data that could not be sent.
#[derive(Debug)]
pub struct SendError<T>(T);

impl<T> SendError<T> {
    /// Creates a [`SendError`] that holds the data that could not be sent.
    pub fn new(data: T) -> (error: Self)
        ensures
            error.data() == data,
    {
        SendError(data)
    }

    /// The data that could not be sent.
    pub closed spec fn data(&self) -> T {
        self.0
    }

    /// Gives back the data that could not be sent.
    pub fn into_inner(self) -> (data: T)
        ensures
            data == self.data(),
    {
        self.0
    }
}

/// Represents an error when receiving data from a socket.
#[derive(Debug, Clone, Copy, PartialEq, Eq, Structural)]
pub enum RecvError {
    /// The receiver is closed and will not receive any more data.
    Closed,
    /// The receiver lagged too far behind. Attempting to receive again will return the oldest
    /// message still retained by the channel.
    Lagged(u64),
}

/// Underlying protocol type.
///
/// This is used to account for differences in individual protocol behavior, mainly to do with
/// connection management, which might need to be accounted for by the user of the socket.
#[derive(Debug, Clone, Copy, PartialEq, Eq, Structural)]
pub enum ProtocolType {
    /// Stream oriented communication.
    ///
    /// These types of sockets provide sequenced, reliable, two-way, connection-based byte streams.
    Stream,
    /// Datagram oriented communication, with the largest payload that a datagram can carry.
    ///
    /// These types of sockets support datagrams (connectionless, unreliable messages of a fixed
    /// maximum length).
    Datagram(u32),
}


/// How one read from or write to a stream socket went.
#[derive(Debug, Clone, Copy, PartialEq, Eq)]
pub enum IoOutcome {
    /// This many bytes were transferred; `0` means the stream reached its end.
    Done(usize),
    /// The socket was not ready after all; the operation would have blocked.
    WouldBlock,
    /// The operation failed for another reason.
    Failed,
}

/// What a connection's reading loop does after one read.
#[derive(Debug, Clone, Copy, PartialEq, Eq)]
pub enum ReadAction {
    /// Hand the received data on, then read again.
    Forward,
    /// Wait until the socket is readable and read again.
    Retry,
    /// The peer closed the stream: stop reading, without an error.
    Finish,
    /// Stop reading and report the error.
    Fail,
}

/// What a connection's writing loop does after one write. Whatever happens, the sender of the
/// data is answered that it was handled.
#[derive(Debug, Clone, Copy, PartialEq, Eq)]
pub enum WriteAction {
    /// Take the next packet.
    Continue,
    /// The peer closed the stream: stop writing, without an error.
    Finish,
    /// Stop writing and report the error.
    Fail,
}

/// Decides what a connection's reading loop does after one read.
///
/// Data is forwarded; the end of the stream ends the loop; a read that would block is retried;
/// any other error ends the loop with that error.
pub fn tcp_read_step(outcome: IoOutcome) -> (action: ReadAction)
    ensures
        action == match outcome {
            IoOutcome::Done(n) => if n == 0 {
                ReadAction::Finish
            } else {
                ReadAction::Forward
            },
            IoOutcome::WouldBlock => ReadAction::Retry,
            IoOutcome::Failed => ReadAction::Fail,
        },
{
    match outcome {
        IoOutcome::Done(0) => ReadAction::Finish,
        IoOutcome::Done(_) => ReadAction::Forward,
        IoOutcome::WouldBlock => ReadAction::Retry,
        IoOutcome::Failed => ReadAction::Fail,
    }
}

/// Decides what a connection's writing loop does after one write.
///
/// After a write of some bytes the loop goes on; a write of nothing means the stream reached its
/// end and ends the loop; any error ends the loop with that error.
pub fn tcp_write_step(outcome: IoOutcome) -> (action: WriteAction)
    ensures
        action == match outcome {
            IoOutcome::Done(n) => if n == 0 {
                WriteAction::Finish
            } else {
                WriteAction::Continue
            },
            IoOutcome::WouldBlock | IoOutcome::Failed => WriteAction::Fail,
        },
{
    match outcome {
        IoOutcome::Done(0) => WriteAction::Finish,
        IoOutcome::Done(_) => WriteAction::Continue,
        IoOutcome::WouldBlock | IoOutcome::Failed => WriteAction::Fail,
    }
}
} // verus!
