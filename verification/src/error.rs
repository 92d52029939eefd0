//! The errors of the transport.

use vstd::prelude::*;

verus! {

/// The kinds of I/O failure that the library tells apart.
#[derive(Clone, Copy, Debug, PartialEq, Eq, Structural)]
pub enum ErrorKind {
    /// The operation would have to wait.
    WouldBlock,
    /// The peer gave up a connection before it was accepted.
    ConnectionAborted,
    /// The other end of the connection is gone.
    BrokenPipe,
    /// A signal interrupted the operation.
    Interrupted,
    /// What was to be created is already there.
    AlreadyExists,
    /// What was to be found is not there.
    NotFound,
    /// The operation is not supported.
    Unsupported,
    /// Anything else.
    Other,
}

/// A failed I/O operation.
#[derive(Clone, Debug)]
pub enum IoError {
    /// The operating system's error number.
    Os(i32),
    /// A failure that has a kind and nothing else.
    Simple(ErrorKind),
    /// A failure with a fixed message.
    SimpleMessage(ErrorKind, &'static str),
    /// A failure with a message of its own.
    Custom(ErrorKind, String),
}

/// Errors of a vhost-user connection.
#[derive(Clone, Debug)]
pub enum Error {
    /// A parameter is invalid.
    InvalidParam,
    /// The operation is not possible in the current state.
    InvalidOperation(&'static str),
    /// A message has invalid content.
    InvalidMessage,
    /// A message ended before it was complete.
    PartialMessage,
    /// The peer closed the connection.
    Disconnected,
    /// A message is larger than the protocol allows.
    OversizedMsg,
    /// A wrong number of descriptors is attached to a message.
    IncorrectFds,
    /// The socket could not be connected.
    SocketConnect(IoError),
    /// A socket operation failed.
    SocketError(IoError),
    /// The socket is broken.
    SocketBroken(IoError),
    /// A socket operation failed for now: a signal came, or resources are short.
    SocketRetry(IoError),
    /// A handle record does not name a live handle.
    Win32InvalidHandle(IoError),
    /// A handle could not be duplicated into the peer process.
    Win32HandleTransfer(IoError),
}

/// The error numbers of this platform that `from_errno_with` tells apart.
#[derive(Clone, Copy, Debug)]
pub struct ErrnoCodes {
    pub eagain: i32,
    pub ewouldblock: i32,
    pub eintr: i32,
    pub enobufs: i32,
    pub enomem: i32,
    pub econnreset: i32,
    pub epipe: i32,
}

/// The values that `libc` gives these error numbers on this platform.
///
/// Nothing is stated of them: they differ from platform to platform.
#[verifier::external_body]
fn libc_errno_codes() -> (codes: ErrnoCodes) {
    ErrnoCodes {
        eagain: libc::EAGAIN,
        ewouldblock: libc::EWOULDBLOCK,
        eintr: libc::EINTR,
        enobufs: libc::ENOBUFS,
        enomem: libc::ENOMEM,
        econnreset: libc::ECONNRESET,
        epipe: libc::EPIPE,
    }
}

impl ErrnoCodes {
    /// The numbers are those that `libc` gives on this platform.
    pub closed spec fn of_platform(self) -> bool {
        call_ensures(libc_errno_codes, (), self)
    }

    /// The errors that pass by themselves: a signal came, or resources are short for now.
    pub open spec fn temporary(self, errno: i32) -> bool {
        ||| errno == self.eagain
        ||| errno == self.ewouldblock
        ||| errno == self.eintr
        ||| errno == self.enobufs
        ||| errno == self.enomem
    }

    /// The errors after which the socket is of no more use.
    pub open spec fn broken(self, errno: i32) -> bool {
        ||| errno == self.econnreset
        ||| errno == self.epipe
    }
}

impl Error {
    /// What a socket operation that failed with `errno` means to a connection.
    pub open spec fn of_errno(errno: i32, codes: ErrnoCodes) -> Error {
        if codes.temporary(errno) {
            Error::SocketRetry(IoError::Os(errno))
        } else if codes.broken(errno) {
            Error::SocketBroken(IoError::Os(errno))
        } else {
            Error::SocketError(IoError::Os(errno))
        }
    }

    /// Sorts the error number of a failed socket operation by the given numbers.
    pub fn from_errno_with(errno: i32, codes: &ErrnoCodes) -> (error: Error)
        ensures
            error == Error::of_errno(errno, *codes),
    {
        if errno == codes.eagain || errno == codes.ewouldblock || errno == codes.eintr || errno
            == codes.enobufs || errno == codes.enomem {
            Error::SocketRetry(IoError::Os(errno))
        } else if errno == codes.econnreset || errno == codes.epipe {
            Error::SocketBroken(IoError::Os(errno))
        } else {
            Error::SocketError(IoError::Os(errno))
        }
    }

    /// Sorts the error number of a failed socket operation by this platform's numbers.
    pub fn from_errno(errno: i32) -> (error: Error)
        ensures
            exists|codes: ErrnoCodes|
                codes.of_platform() && error == #[trigger] Error::of_errno(errno, codes),
    {
        let codes = libc_errno_codes();
        Error::from_errno_with(errno, &codes)
    }
}

/// An error number is sorted by which of the platform's numbers it is, and stays with the error. A
/// number that passes by itself is tried again, whatever else it equals; one after which the socket
/// is of no use breaks it; any other is an error of the socket.
pub proof fn law_error_numbers_are_sorted(errno: i32, codes: ErrnoCodes)
    ensures
        match Error::of_errno(errno, codes) {
            Error::SocketRetry(error) => {
                &&& error == IoError::Os(errno)
                &&& errno == codes.eagain || errno == codes.ewouldblock || errno == codes.eintr
                    || errno == codes.enobufs || errno == codes.enomem
            },
            Error::SocketBroken(error) => {
                &&& error == IoError::Os(errno)
                &&& errno == codes.econnreset || errno == codes.epipe
                &&& errno != codes.eagain && errno != codes.ewouldblock && errno != codes.eintr
                    && errno != codes.enobufs && errno != codes.enomem
            },
            Error::SocketError(error) => {
                &&& error == IoError::Os(errno)
                &&& errno != codes.econnreset && errno != codes.epipe
                &&& errno != codes.eagain && errno != codes.ewouldblock && errno != codes.eintr
                    && errno != codes.enobufs && errno != codes.enomem
            },
            _ => false,
        },
{
}

} // verus!
