//! Error values of the handshakes and of the RPC replies they send.

use vstd::prelude::*;

verus! {

/// Why a handshake, or a call on the context, failed.
#[derive(Clone, Copy, Debug, PartialEq, Eq, Structural)]
pub enum Error {
    /// An input reached a state machine in a state that does not take it.
    InvalidState,
    /// The application submitted something that no event had asked for.
    IncorrectUsage,
    /// The remote peer answered a call with this runtime error code.
    RpcRemote(i32),
    /// The RPC layer reported an I/O or framing failure.
    RpcTransport,
    /// A value had the wrong shape, the wrong length, or a character that
    /// is not ASCII where ASCII is required.
    BadArgument,
    /// The operation needs a bootstrapped transport.
    NotBootstrapped,
    /// No handshake, or no endpoint server, goes by the given key.
    UnknownHandle,
    /// The operating system gave no random bytes for a cookie.
    EntropyUnavailable,
    /// The context has given out every handle it can count.
    HandlesExhausted,
}

/// The runtime errors that the servers of this protocol answer a call with.
#[derive(Clone, Copy, Debug, PartialEq, Eq, Structural)]
pub enum GoslingError {
    /// The caller speaks another version of the protocol.
    BadVersion,
    /// The call came without a request cookie.
    RequestCookieRequired,
    /// An argument is missing or malformed.
    InvalidArg,
    /// The call cannot be served.
    Failure,
}

impl GoslingError {
    /// The number that stands for this error on the wire.
    pub open spec fn spec_code(self) -> i32 {
        match self {
            GoslingError::BadVersion => 1,
            GoslingError::RequestCookieRequired => 2,
            GoslingError::InvalidArg => 3,
            GoslingError::Failure => 4,
        }
    }

    /// The number that stands for this error on the wire.
    #[verifier::when_used_as_spec(spec_code)]
    pub fn code(self) -> (code: i32)
        ensures
            code == self.spec_code(),
    {
        match self {
            GoslingError::BadVersion => 1,
            GoslingError::RequestCookieRequired => 2,
            GoslingError::InvalidArg => 3,
            GoslingError::Failure => 4,
        }
    }

    /// The error that a wire number stands for, if it stands for one.
    pub fn from_code(code: i32) -> (error: Option<GoslingError>)
        ensures
            error matches Some(e) ==> e.spec_code() == code,
            error is None <==> !(1 <= code <= 4),
    {
        if code == 1 {
            Some(GoslingError::BadVersion)
        } else if code == 2 {
            Some(GoslingError::RequestCookieRequired)
        } else if code == 3 {
            Some(GoslingError::InvalidArg)
        } else if code == 4 {
            Some(GoslingError::Failure)
        } else {
            None
        }
    }
}

/// Whether `result` is the failure `error`.
pub open spec fn failed_with<T, E>(result: Result<T, E>, error: E) -> bool {
    result matches Err(e) && e == error
}

} // verus!
