//! What the handshakes exchange with the RPC session that carries them.

use vstd::prelude::*;
use vstd::string::*;
use crate::document::Value;

verus! {

/// The number by which the RPC session tells its requests apart.
pub type RequestCookie = i64;

/// A call that a client hands to its RPC session.
#[derive(Debug)]
pub struct Call {
    /// The namespace of the function.
    pub namespace: String,
    /// The name of the function.
    pub function: String,
    /// The version of the function.
    pub version: i32,
    /// The arguments of the call.
    pub arguments: bson::Document,
}

/// What an RPC session hands back for a call that was made through it.
#[derive(Debug)]
pub enum Response {
    /// The peer has the request and has not answered it yet.
    Pending { cookie: RequestCookie },
    /// The peer answered with a result.
    Success { cookie: RequestCookie, result: Value },
    /// The peer answered with an error code.
    Error { cookie: RequestCookie, error_code: i32 },
}

impl Response {
    /// The cookie of the request that this response answers.
    pub open spec fn spec_cookie(&self) -> RequestCookie {
        match *self {
            Response::Pending { cookie } => cookie,
            Response::Success { cookie, .. } => cookie,
            Response::Error { cookie, .. } => cookie,
        }
    }

    /// The cookie of the request that this response answers.
    #[verifier::when_used_as_spec(spec_cookie)]
    pub fn cookie(&self) -> (cookie: RequestCookie)
        ensures
            cookie == self.spec_cookie(),
    {
        match self {
            Response::Pending { cookie } => *cookie,
            Response::Success { cookie, .. } => *cookie,
            Response::Error { cookie, .. } => *cookie,
        }
    }
}

/// The version of the protocol, as the text that goes over the wire.
pub open spec fn gosling_version() -> Seq<char> {
    "0.0.0.1"@
}

/// The version of the protocol, as the text that goes over the wire.
pub fn version_text() -> (version: &'static str)
    ensures
        version@ == gosling_version(),
{
    "0.0.0.1"
}

} // verus!
