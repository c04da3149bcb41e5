//! Error values of the producer pipeline.
//!
//! The native engine reports outcomes through two code sets: a
//! configuration result per option pair, and a response code for the send
//! and delivery paths. Both are mirrored here as plain enums, and every
//! failure the library can return to a caller is one variant of [`Error`].

use vstd::prelude::*;

verus! {

/// Outcome code the native engine returns for one configuration pair.
#[derive(Clone, Copy, Debug, PartialEq, Eq, Structural)]
pub enum ConfRes {
    /// The pair was accepted.
    ConfOk,
    /// The value was rejected as invalid for its key.
    ConfInvalid,
    /// The key is unknown to the engine.
    ConfUnknown,
}

/// Response code of the native engine on the send and delivery paths.
#[derive(Clone, Copy, Debug, PartialEq, Eq, Structural)]
pub enum RespError {
    /// The operation succeeded.
    NoError,
    /// An argument was invalid.
    InvalidArg,
    /// The topic is unknown.
    UnknownTopic,
    /// The partition is unknown.
    UnknownPartition,
    /// The operation timed out.
    TimedOut,
    /// The message is larger than the engine accepts.
    MsgSizeTooLarge,
    /// The engine's outbound queue is full.
    QueueFull,
    /// The transport to the broker failed.
    Transport,
    /// Any other local failure.
    Fail,
}

/// Verify if the return code or return value represents an error condition.
pub trait IsError: Sized {
    /// Whether the code stands for an error condition.
    spec fn spec_is_error(self) -> bool;

    /// Return true if the error code or return code represents an error.
    fn is_error(self) -> (r: bool)
        ensures
            r == self.spec_is_error(),
    ;
}

impl IsError for RespError {
    open spec fn spec_is_error(self) -> bool {
        self != RespError::NoError
    }

    fn is_error(self) -> (r: bool) {
        self != RespError::NoError
    }
}

impl IsError for ConfRes {
    open spec fn spec_is_error(self) -> bool {
        self != ConfRes::ConfOk
    }

    fn is_error(self) -> (r: bool) {
        self != ConfRes::ConfOk
    }
}

/// Represents all Kafka errors.
#[derive(Clone, Debug, PartialEq, Eq)]
pub enum Error {
    /// A configuration pair was rejected: the result code, the engine's
    /// descriptive text, and the offending key and value.
    Config(ConfRes, String, String, String),
    /// The native consumer client could not be created.
    ConsumerCreation(String),
    /// The native client could not be created; carries the engine's
    /// error-buffer text.
    ClientCreation(String),
    /// A message could not be consumed.
    MessageConsumption(RespError),
    /// A message could not be enqueued for production.
    MessageProduction(RespError),
    /// A subscription could not be established.
    Subscription(String),
    /// The native topic could not be created; the name is the probable
    /// cause, since the engine does not distinguish further on this path.
    TopicName(String),
    /// A text holds an embedded terminator and cannot cross into the
    /// engine's C strings; carries the offending text.
    Nul(String),
}

/// The errno-equivalent values the library translates into engine
/// response codes when the engine rejects an enqueue immediately.
pub const ERRNO_NO_ENTRY: i32 = 2;
pub const ERRNO_NO_PROCESS: i32 = 3;
pub const ERRNO_IO: i32 = 5;
pub const ERRNO_INVALID: i32 = 22;
pub const ERRNO_MSG_SIZE: i32 = 90;
pub const ERRNO_NO_BUFFERS: i32 = 105;
pub const ERRNO_TIMED_OUT: i32 = 110;

/// The engine response code that stands for a given errno-equivalent
/// value: the lookup used when an enqueue is rejected synchronously.
pub open spec fn resp_err_of_errno(e: i32) -> RespError {
    if e == ERRNO_INVALID {
        RespError::InvalidArg
    } else if e == ERRNO_NO_ENTRY {
        RespError::UnknownTopic
    } else if e == ERRNO_NO_PROCESS {
        RespError::UnknownPartition
    } else if e == ERRNO_TIMED_OUT {
        RespError::TimedOut
    } else if e == ERRNO_MSG_SIZE {
        RespError::MsgSizeTooLarge
    } else if e == ERRNO_NO_BUFFERS {
        RespError::QueueFull
    } else if e == ERRNO_IO {
        RespError::Transport
    } else {
        RespError::Fail
    }
}

/// Translate an errno-equivalent value into an engine response code.
pub fn errno_to_resp_err(e: i32) -> (r: RespError)
    ensures
        r == resp_err_of_errno(e),
{
    if e == ERRNO_INVALID {
        RespError::InvalidArg
    } else if e == ERRNO_NO_ENTRY {
        RespError::UnknownTopic
    } else if e == ERRNO_NO_PROCESS {
        RespError::UnknownPartition
    } else if e == ERRNO_TIMED_OUT {
        RespError::TimedOut
    } else if e == ERRNO_MSG_SIZE {
        RespError::MsgSizeTooLarge
    } else if e == ERRNO_NO_BUFFERS {
        RespError::QueueFull
    } else if e == ERRNO_IO {
        RespError::Transport
    } else {
        RespError::Fail
    }
}

} // verus!
