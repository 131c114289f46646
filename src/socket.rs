//! The decisions of a byte-stream adapter over a kernel socket.
//!
//! A reader waits until the socket is readable or its peer has gone, then
//! reads. A peer that has gone reads as the end of the stream; every other
//! kernel failure becomes an I/O error. The caller makes the kernel calls and
//! reports their outcomes; this module decides what the reader or writer sees.

use vstd::prelude::*;

verus! {

/// A kernel status that a socket call failed with.
#[derive(Clone, Copy, Debug, PartialEq, Eq, Structural)]
pub enum SocketStatus {
    /// The other end of the socket was closed.
    PeerClosed,
    /// Any other failure, by its raw code.
    Other { raw: i32 },
}

/// The signals a wait on the socket observed.
#[derive(Clone, Copy, Debug, PartialEq, Eq, Structural)]
pub struct SocketSignals {
    pub readable: bool,
    pub peer_closed: bool,
}

/// The kind of an I/O error.
#[derive(Clone, Copy, Debug, PartialEq, Eq, Structural)]
pub enum IoErrorKind {
    /// A failure of the operating system that fits no finer kind.
    Other,
}

/// An I/O error as the adapter reports it.
#[derive(Clone, Copy, Debug, PartialEq, Eq, Structural)]
pub struct IoError {
    pub kind: IoErrorKind,
}

impl IoError {
    /// The error's message.
    pub fn message(&self) -> (r: &'static str)
        ensures
            r@ == "OS error"@,
    {
        "OS error"
    }
}

/// The error a failed kernel call becomes: the status is not kept.
pub fn status_to_io_err(_status: SocketStatus) -> (r: IoError)
    ensures
        r == (IoError { kind: IoErrorKind::Other }),
{
    IoError { kind: IoErrorKind::Other }
}

/// What a reader does after waiting on the socket.
#[derive(Clone, Copy, Debug, PartialEq, Eq)]
pub enum ReadStep {
    /// Read from the socket and report the outcome.
    Read,
    /// Return this to the reader without reading.
    Finish { result: Result<usize, IoError> },
}

/// The error every failure maps to.
pub open spec fn os_error() -> IoError {
    IoError { kind: IoErrorKind::Other }
}

/// A byte-stream adapter over the socket handle `S`.
pub struct MySocket<S>(pub S);

impl<S> MySocket<S> {
    /// The step after a wait for readability or peer closure: a gone peer
    /// ends the stream, a failed wait is an error, otherwise read.
    pub fn after_wait(wait: Result<SocketSignals, SocketStatus>) -> (r: ReadStep)
        ensures
            r == match wait {
                Ok(signals) => if signals.peer_closed {
                    ReadStep::Finish { result: Ok(0) }
                } else {
                    ReadStep::Read
                },
                Err(_) => ReadStep::Finish { result: Err(os_error()) },
            },
    {
        match wait {
            Ok(signals) => {
                if signals.peer_closed {
                    ReadStep::Finish { result: Ok(0) }
                } else {
                    ReadStep::Read
                }
            },
            Err(status) => ReadStep::Finish { result: Err(status_to_io_err(status)) },
        }
    }

    /// What the reader sees for the outcome of a read: the byte count, the end
    /// of the stream if the peer has gone, an error otherwise.
    pub fn after_read(read: Result<usize, SocketStatus>) -> (r: Result<usize, IoError>)
        ensures
            r == match read {
                Ok(n) => Ok(n),
                Err(SocketStatus::PeerClosed) => Ok(0),
                Err(_) => Err(os_error()),
            },
    {
        match read {
            Ok(n) => Ok(n),
            Err(SocketStatus::PeerClosed) => Ok(0),
            Err(status) => Err(status_to_io_err(status)),
        }
    }

    /// What the writer sees for the outcome of a write: the byte count or an
    /// error.
    pub fn after_write(write: Result<usize, SocketStatus>) -> (r: Result<usize, IoError>)
        ensures
            r == match write {
                Ok(n) => Ok(n),
                Err(_) => Err(os_error()),
            },
    {
        match write {
            Ok(n) => Ok(n),
            Err(status) => Err(status_to_io_err(status)),
        }
    }

    /// Flushing has nothing to do: writes go straight to the socket.
    pub fn flush(&self) -> (r: Result<(), IoError>)
        ensures
            r == Ok::<(), IoError>(()),
    {
        Ok(())
    }
}

} // verus!
