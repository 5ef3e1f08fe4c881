//! The listening side of the endpoint handshake: for one inbound
//! connection to an endpoint, open a channel for the one client that the
//! endpoint was granted to, and for nobody else.

use vstd::prelude::*;
use vstd::string::*;
use crate::client_proof::{
    build_client_proof, client_proof, ClientCookie, DomainSeparator, ServerCookie,
};
use crate::document::{
    document_shapes, new_document, no_entries, option_shape, put, shape_at, take, Shape, Value,
};
use crate::error::{failed_with, Error, GoslingError};
use crate::identity_server::{id_text, text_chars};
use crate::keys::{array_of_32, array_of_64, draw_cookie, vec_of_32, Ed25519Signature};
use crate::encoding::same_text;
use crate::rpc::{gosling_version, version_text, RequestCookie};
use crate::service_id::{is_service_id_text, GoslingV3OnionServiceId};

verus! {

/// What an endpoint server tells the application.
#[derive(Debug)]
pub enum EndpointServerEvent {
    /// A client asked for a channel.
    ChannelRequestReceived { requested_channel: String },
    /// The channel is open.
    HandshakeCompleted { client_service_id: GoslingV3OnionServiceId, channel_name: String },
    /// The client was turned away. Each flag says whether that check
    /// passed.
    HandshakeRejected {
        client_allowed: bool,
        client_requested_channel_valid: bool,
        client_proof_signature_valid: bool,
    },
}

/// Where an endpoint server stands in its handshake.
#[derive(Clone, Copy, Debug, PartialEq, Eq, Structural)]
pub enum EndpointServerState {
    WaitingForBeginHandshake,
    WaitingForSendResponse,
    HandledSendResponse,
    HandshakeComplete,
}

/// The signature of a `send_response` call, with what it must be checked
/// against.
#[derive(Debug)]
pub struct EndpointSignatureCheck {
    /// The client proof that the signature should be a signature of,
    /// under the key behind `client_identity`.
    pub client_proof: Vec<u8>,
    /// The service id that the client claims.
    pub client_identity: GoslingV3OnionServiceId,
    /// The signature that came as the proof of that claim.
    pub client_identity_proof_signature: Ed25519Signature,
}

/// What an endpoint server answers a call with at once.
#[derive(Debug)]
pub enum EndpointServerExec {
    /// This reply.
    Reply(Value),
    /// Nothing, now or later: the call is not one that the server takes
    /// in its state.
    Deferred,
    /// The driver checks this signature and asks
    /// `handle_signature_verification` for the reply.
    Verify(EndpointSignatureCheck),
}

/// An endpoint server: the state of one inbound endpoint handshake.
pub struct EndpointServer {
    server_cookie: ServerCookie,
    allowed_client_identity: GoslingV3OnionServiceId,
    server_identity: GoslingV3OnionServiceId,
    state: EndpointServerState,
    requested_channel: Option<String>,
    channel_announced: bool,
    client_identity: Option<GoslingV3OnionServiceId>,
    handshake_succeeded: Option<bool>,
    client_allowed: bool,
    client_requested_channel_valid: bool,
    client_proof_signature_valid: bool,
}

/// An endpoint server as the contracts speak of it.
pub struct EndpointServerView {
    pub server_cookie: Seq<u8>,
    pub allowed_client_identity: Seq<char>,
    pub server_identity: Seq<char>,
    pub state: EndpointServerState,
    pub requested_channel: Option<Seq<char>>,
    pub channel_announced: bool,
    pub client_identity: Option<Seq<char>>,
    pub handshake_succeeded: Option<bool>,
    pub client_allowed: bool,
    pub client_requested_channel_valid: bool,
    pub client_proof_signature_valid: bool,
}

impl View for EndpointServer {
    type V = EndpointServerView;

    closed spec fn view(&self) -> EndpointServerView {
        EndpointServerView {
            server_cookie: self.server_cookie@,
            allowed_client_identity: self.allowed_client_identity@,
            server_identity: self.server_identity@,
            state: self.state,
            requested_channel: text_chars(self.requested_channel),
            channel_announced: self.channel_announced,
            client_identity: id_text(self.client_identity),
            handshake_succeeded: self.handshake_succeeded,
            client_allowed: self.client_allowed,
            client_requested_channel_valid: self.client_requested_channel_valid,
            client_proof_signature_valid: self.client_proof_signature_valid,
        }
    }
}

/// The arguments of a `begin_handshake` call of the endpoint handshake,
/// if they are well formed: two texts, the version and the channel.
pub open spec fn channel_request_arguments(arguments: bson::Document) -> Option<(Seq<char>, Seq<char>)> {
    match shape_at(arguments, "version"@) {
        Some(Shape::Text(version)) => match shape_at(arguments, "channel"@) {
            Some(Shape::Text(channel)) => Some((version, channel)),
            _ => None,
        },
        _ => None,
    }
}

/// The arguments of a `send_response` call of the endpoint handshake, if
/// they are well formed.
pub struct ChannelResponseArguments {
    pub client_cookie: Seq<u8>,
    pub client_identity: Seq<char>,
    pub client_identity_proof_signature: Seq<u8>,
}

/// Reads the arguments of `send_response`: `None` unless the cookie is
/// there with 32 bytes, the identity as the text of a service id and the
/// signature with 64 bytes.
pub open spec fn channel_response_arguments(arguments: bson::Document) -> Option<ChannelResponseArguments> {
    match shape_at(arguments, "client_cookie"@) {
        Some(Shape::Binary(client_cookie)) => match shape_at(arguments, "client_identity"@) {
            Some(Shape::Text(client_identity)) => match shape_at(arguments, "client_identity_proof_signature"@) {
                Some(Shape::Binary(client_identity_proof_signature)) => if client_cookie.len() == 32
                    && is_service_id_text(client_identity) && client_identity_proof_signature.len() == 64 {
                    Some(
                        ChannelResponseArguments { client_cookie, client_identity, client_identity_proof_signature },
                    )
                } else {
                    None
                },
                _ => None,
            },
            _ => None,
        },
        _ => None,
    }
}

impl EndpointServerView {
    /// The server before its first call.
    pub open spec fn initial(
        allowed_client_identity: Seq<char>,
        server_identity: Seq<char>,
        server_cookie: Seq<u8>,
    ) -> EndpointServerView {
        EndpointServerView {
            server_cookie,
            allowed_client_identity,
            server_identity,
            state: EndpointServerState::WaitingForBeginHandshake,
            requested_channel: None,
            channel_announced: false,
            client_identity: None,
            handshake_succeeded: None,
            client_allowed: false,
            client_requested_channel_valid: true,
            client_proof_signature_valid: false,
        }
    }

    /// Whether the server takes a `begin_handshake` call now.
    pub open spec fn takes_begin_handshake(self) -> bool {
        self.state is WaitingForBeginHandshake && self.requested_channel is None
    }

    /// Whether the server takes a `send_response` call now.
    pub open spec fn takes_send_response(self) -> bool {
        &&& self.state is WaitingForSendResponse
        &&& self.requested_channel is Some
        &&& self.client_identity is None
    }

    /// The server after a `begin_handshake` call for the channel
    /// `channel` in the version `version`: `Failure` unless the server
    /// waits for that call, `InvalidArg` for a channel whose name is not
    /// ASCII, `BadVersion` for another version of the protocol.
    pub open spec fn after_begin_handshake_of(
        self,
        version: Seq<char>,
        channel: Seq<char>,
    ) -> Result<EndpointServerView, GoslingError> {
        if !self.takes_begin_handshake() {
            Err(GoslingError::Failure)
        } else if !vstd::utf8::is_ascii_chars(channel) {
            Err(GoslingError::InvalidArg)
        } else if version != gosling_version() {
            Err(GoslingError::BadVersion)
        } else {
            Ok(
                EndpointServerView {
                    requested_channel: Some(channel),
                    state: EndpointServerState::WaitingForSendResponse,
                    ..self
                },
            )
        }
    }

    /// The server after a `begin_handshake` call with these arguments.
    pub open spec fn after_begin_handshake(
        self,
        arguments: bson::Document,
    ) -> Result<EndpointServerView, GoslingError> {
        match channel_request_arguments(arguments) {
            Some((version, channel)) => self.after_begin_handshake_of(version, channel),
            None => Err(GoslingError::InvalidArg),
        }
    }

    /// The server after a `send_response` call of the client
    /// `client_identity`: `Failure` unless the server waits for that
    /// call, `InvalidArg` where no client proof can be made for the
    /// channel.
    pub open spec fn after_send_response_of(
        self,
        client_identity: Seq<char>,
    ) -> Result<EndpointServerView, GoslingError> {
        if !self.takes_send_response() {
            Err(GoslingError::Failure)
        } else if !vstd::utf8::is_ascii_chars(self.requested_channel.unwrap()) {
            Err(GoslingError::InvalidArg)
        } else {
            Ok(
                EndpointServerView {
                    client_identity: Some(client_identity),
                    client_allowed: client_identity == self.allowed_client_identity,
                    ..self
                },
            )
        }
    }

    /// The server after a `send_response` call with these arguments.
    pub open spec fn after_send_response(
        self,
        arguments: bson::Document,
    ) -> Result<EndpointServerView, GoslingError> {
        match channel_response_arguments(arguments) {
            Some(read) => self.after_send_response_of(read.client_identity),
            None => Err(GoslingError::InvalidArg),
        }
    }

    /// Whether `check` asks for the signature of `read` to be checked as
    /// it must be: against the client proof of this handshake, under the
    /// service id that the client claims.
    pub open spec fn checks(self, read: ChannelResponseArguments, check: EndpointSignatureCheck) -> bool {
        &&& self.requested_channel is Some
        &&& check.client_identity@ == read.client_identity
        &&& check.client_identity_proof_signature@ == read.client_identity_proof_signature
        &&& check.client_proof@ == client_proof(
            DomainSeparator::GoslingEndpoint,
            self.requested_channel.unwrap(),
            read.client_identity,
            self.server_identity,
            read.client_cookie,
            self.server_cookie,
        )
    }

    /// The server after a call of the RPC session, or the error that the
    /// call is answered with. On an error, and on a call that the server
    /// does not take in its state, the server is left as it was.
    pub open spec fn after_call(
        self,
        name: Seq<char>,
        version: i32,
        arguments: bson::Document,
        request_cookie: Option<RequestCookie>,
    ) -> Result<EndpointServerView, GoslingError> {
        match request_cookie {
            None => Err(GoslingError::RequestCookieRequired),
            Some(cookie) => if name == "begin_handshake"@ && version == 0 && self.takes_begin_handshake() {
                self.after_begin_handshake(arguments)
            } else if name == "send_response"@ && version == 0 && self.takes_send_response() {
                self.after_send_response(arguments)
            } else {
                Ok(self)
            },
        }
    }

    /// Whether `reply` is the document that answers `begin_handshake`:
    /// the server cookie.
    pub open spec fn is_cookie_reply(self, reply: Value) -> bool {
        &&& reply@ matches Shape::Document(document)
        &&& document_shapes(document) == no_entries().insert("server_cookie"@, Shape::Binary(self.server_cookie))
    }

    /// What a call that is not refused is answered with at once: the
    /// server cookie for `begin_handshake`; for `send_response` the
    /// signature to check; nothing for a call that is not taken.
    pub open spec fn answers(
        self,
        name: Seq<char>,
        version: i32,
        arguments: bson::Document,
        answer: EndpointServerExec,
    ) -> bool {
        if name == "begin_handshake"@ && version == 0 && self.takes_begin_handshake() {
            answer matches EndpointServerExec::Reply(reply) && self.is_cookie_reply(reply)
        } else if name == "send_response"@ && version == 0 && self.takes_send_response() {
            &&& answer matches EndpointServerExec::Verify(check)
            &&& channel_response_arguments(arguments) matches Some(read)
            &&& self.checks(read, check)
        } else {
            answer is Deferred
        }
    }

    /// Whether the server waits for the verdict on the signature of a
    /// `send_response` call.
    pub open spec fn awaits_signature_verdict(self) -> bool {
        &&& self.state is WaitingForSendResponse
        &&& self.client_identity is Some
    }

    /// Whether the handshake succeeds on this verdict on the signature.
    pub open spec fn succeeds_on(self, proof_signature_valid: bool) -> bool {
        self.client_allowed && self.client_requested_channel_valid && proof_signature_valid
    }

    /// The server after the driver has checked the signature of the
    /// `send_response` call.
    pub open spec fn after_signature_verdict(self, proof_signature_valid: bool) -> EndpointServerView {
        if self.awaits_signature_verdict() {
            EndpointServerView {
                client_proof_signature_valid: proof_signature_valid,
                handshake_succeeded: Some(self.succeeds_on(proof_signature_valid)),
                state: EndpointServerState::HandledSendResponse,
                ..self
            }
        } else {
            self
        }
    }

    /// What the `send_response` call is answered with once its signature
    /// has been checked: a document without entries where the handshake
    /// succeeds, `Failure` where it does not or where no verdict was
    /// awaited.
    pub open spec fn replies(self, proof_signature_valid: bool, reply: Result<Value, GoslingError>) -> bool {
        if self.awaits_signature_verdict() && self.succeeds_on(proof_signature_valid) {
            &&& reply matches Ok(granted)
            &&& granted@ matches Shape::Document(document)
            &&& document_shapes(document) == no_entries()
        } else {
            failed_with(reply, GoslingError::Failure)
        }
    }

    /// Whether a tick announces the channel request.
    pub open spec fn announces_request(self) -> bool {
        self.requested_channel is Some && !self.channel_announced
    }

    /// Whether a tick announces the end of the handshake.
    pub open spec fn announces_end(self) -> bool {
        &&& !self.announces_request()
        &&& self.state is HandledSendResponse
        &&& self.handshake_succeeded is Some
        &&& self.requested_channel is Some
        &&& self.client_identity is Some
    }

    /// The server after a tick, or `InvalidState` for a server whose
    /// handshake has come to its end.
    pub open spec fn after_update(self) -> Result<EndpointServerView, Error> {
        if self.state is HandshakeComplete {
            Err(Error::InvalidState)
        } else if self.announces_request() {
            Ok(EndpointServerView { channel_announced: true, ..self })
        } else if self.announces_end() {
            Ok(EndpointServerView { state: EndpointServerState::HandshakeComplete, ..self })
        } else {
            Ok(self)
        }
    }

    /// What a tick hands to the application.
    pub open spec fn announces(self, event: Option<EndpointServerEvent>) -> bool {
        if self.announces_request() {
            &&& event matches Some(EndpointServerEvent::ChannelRequestReceived { requested_channel })
            &&& Some(requested_channel@) == self.requested_channel
        } else if self.announces_end() {
            if self.handshake_succeeded == Some(true) {
                &&& event matches Some(EndpointServerEvent::HandshakeCompleted { client_service_id, channel_name })
                &&& Some(client_service_id@) == self.client_identity
                &&& Some(channel_name@) == self.requested_channel
            } else {
                &&& event matches Some(
                    EndpointServerEvent::HandshakeRejected {
                        client_allowed,
                        client_requested_channel_valid,
                        client_proof_signature_valid,
                    },
                )
                &&& client_allowed == self.client_allowed
                &&& client_requested_channel_valid == self.client_requested_channel_valid
                &&& client_proof_signature_valid == self.client_proof_signature_valid
            }
        } else {
            event is None
        }
    }
}

/// What `send_response` was called with.
struct ChannelResponseCall {
    client_cookie: [u8; 32],
    client_identity: GoslingV3OnionServiceId,
    client_identity_proof_signature: Ed25519Signature,
}

fn read_channel_request(arguments: bson::Document) -> (read: Option<(String, String)>)
    ensures
        read is Some <==> channel_request_arguments(arguments) is Some,
        read matches Some(call) ==> channel_request_arguments(arguments) == Some((call.0@, call.1@)),
{
    proof {
        reveal_strlit("version");
        reveal_strlit("channel");
        assert("version"@[0] == 'v');
        assert("channel"@[0] == 'c');
    }
    let mut arguments = arguments;
    let ghost given = arguments;
    let version = take(&mut arguments, "version");
    let channel = take(&mut arguments, "channel");
    assert(option_shape(channel) == shape_at(given, "channel"@));
    match (version, channel) {
        (Some(Value::Text(version)), Some(Value::Text(channel))) => Some((version, channel)),
        _ => None,
    }
}

fn read_channel_response(arguments: bson::Document) -> (read: Option<ChannelResponseCall>)
    ensures
        read is Some <==> channel_response_arguments(arguments) is Some,
        read matches Some(call) ==> channel_response_arguments(arguments) == Some(
            (ChannelResponseArguments {
                client_cookie: call.client_cookie@,
                client_identity: call.client_identity@,
                client_identity_proof_signature: call.client_identity_proof_signature@,
            }),
        ),
{
    proof {
        reveal_strlit("client_cookie");
        reveal_strlit("client_identity");
        reveal_strlit("client_identity_proof_signature");
        assert("client_cookie"@.len() == 13);
        assert("client_identity"@.len() == 15);
        assert("client_identity_proof_signature"@.len() == 31);
    }
    let mut arguments = arguments;
    let ghost given = arguments;
    let client_cookie = take(&mut arguments, "client_cookie");
    let client_identity = take(&mut arguments, "client_identity");
    assert(option_shape(client_identity) == shape_at(given, "client_identity"@));
    let signature = take(&mut arguments, "client_identity_proof_signature");
    assert(option_shape(signature) == shape_at(given, "client_identity_proof_signature"@));
    match (client_cookie, client_identity, signature) {
        (Some(Value::Binary(client_cookie)), Some(Value::Text(client_identity)), Some(Value::Binary(signature))) => {
            let client_cookie = match array_of_32(&client_cookie) {
                Some(client_cookie) => client_cookie,
                None => {
                    return None;
                },
            };
            let client_identity = match GoslingV3OnionServiceId::from_string(client_identity.as_str()) {
                Ok(client_identity) => client_identity,
                Err(_) => {
                    return None;
                },
            };
            match array_of_64(&signature) {
                Some(signature) => Some(
                    ChannelResponseCall { client_cookie, client_identity, client_identity_proof_signature: signature },
                ),
                None => None,
            }
        },
        _ => None,
    }
}

impl EndpointServer {
    /// A server for one connection to the endpoint `server_identity`,
    /// which was granted to the client `client_identity`, with
    /// `server_cookie` as the nonce of the handshake.
    pub fn with_server_cookie(
        client_identity: GoslingV3OnionServiceId,
        server_identity: GoslingV3OnionServiceId,
        server_cookie: ServerCookie,
    ) -> (server: EndpointServer)
        ensures
            server@ == EndpointServerView::initial(client_identity@, server_identity@, server_cookie@),
    {
        EndpointServer {
            server_cookie,
            allowed_client_identity: client_identity,
            server_identity,
            state: EndpointServerState::WaitingForBeginHandshake,
            requested_channel: None,
            channel_announced: false,
            client_identity: None,
            handshake_succeeded: None,
            client_allowed: false,
            client_requested_channel_valid: true,
            client_proof_signature_valid: false,
        }
    }

    /// A server for one connection to the endpoint `server_identity`,
    /// which was granted to the client `client_identity`. The server
    /// cookie, of 32 bytes, is drawn from the operating system;
    /// `EntropyUnavailable` where it gave none.
    pub fn new(
        client_identity: GoslingV3OnionServiceId,
        server_identity: GoslingV3OnionServiceId,
    ) -> (server: Result<EndpointServer, Error>)
        ensures
            server matches Ok(made) ==> made@ == EndpointServerView::initial(
                client_identity@,
                server_identity@,
                made@.server_cookie,
            ) && made@.server_cookie.len() == 32,
            server matches Err(e) ==> e == Error::EntropyUnavailable,
    {
        match draw_cookie() {
            Some(server_cookie) => Ok(Self::with_server_cookie(client_identity, server_identity, server_cookie)),
            None => Err(Error::EntropyUnavailable),
        }
    }

    /// Where the server stands.
    pub fn state(&self) -> (state: EndpointServerState)
        ensures
            state == self@.state,
    {
        self.state
    }

    /// The service id of the endpoint.
    pub fn server_identity(&self) -> (id: &GoslingV3OnionServiceId)
        ensures
            id@ == self@.server_identity,
    {
        &self.server_identity
    }

    /// The namespace of the functions that the server takes calls of.
    pub fn namespace(&self) -> (namespace: &'static str)
        ensures
            namespace@ == "gosling_endpoint"@,
    {
        "gosling_endpoint"
    }

    fn takes_begin_handshake(&self) -> (takes: bool)
        ensures
            takes == self@.takes_begin_handshake(),
    {
        let waiting = match self.state {
            EndpointServerState::WaitingForBeginHandshake => true,
            _ => false,
        };
        waiting && self.requested_channel.is_none()
    }

    fn takes_send_response(&self) -> (takes: bool)
        ensures
            takes == self@.takes_send_response(),
    {
        let waiting = match self.state {
            EndpointServerState::WaitingForSendResponse => true,
            _ => false,
        };
        waiting && self.requested_channel.is_some() && self.client_identity.is_none()
    }

    /// Takes a `begin_handshake` call for the channel `channel` in the
    /// version `version`, and gives the reply: the server cookie. Answers
    /// `Failure` unless the server waits for that call, `InvalidArg` for a
    /// channel whose name is not ASCII, and `BadVersion` where `version`
    /// is not the version of the protocol; the server is then left as it
    /// was.
    pub fn handle_begin_handshake(
        &mut self,
        version: String,
        channel: String,
    ) -> (result: Result<Value, GoslingError>)
        ensures
            match old(self)@.after_begin_handshake_of(version@, channel@) {
                Ok(next) => {
                    &&& final(self)@ == next
                    &&& result matches Ok(reply)
                    &&& old(self)@.is_cookie_reply(reply)
                },
                Err(error) => final(self)@ == old(self)@ && failed_with(result, error),
            },
    {
        if !self.takes_begin_handshake() {
            return Err(GoslingError::Failure);
        }
        if !channel.as_str().is_ascii() {
            return Err(GoslingError::InvalidArg);
        }
        if !same_text(version.as_str(), version_text()) {
            return Err(GoslingError::BadVersion);
        }
        self.requested_channel = Some(channel);
        self.state = EndpointServerState::WaitingForSendResponse;
        let mut reply = new_document();
        put(&mut reply, "server_cookie", Value::Binary(vec_of_32(&self.server_cookie)));
        Ok(Value::Document(reply))
    }

    /// Takes a `send_response` call with these arguments, and gives the
    /// signature to check. Answers `Failure` unless the server waits for
    /// that call, and `InvalidArg` where no client proof can be made for
    /// the channel; the server is then left as it was.
    pub fn handle_send_response(
        &mut self,
        client_cookie: ClientCookie,
        client_identity: GoslingV3OnionServiceId,
        client_identity_proof_signature: Ed25519Signature,
    ) -> (result: Result<EndpointSignatureCheck, GoslingError>)
        ensures
            match old(self)@.after_send_response_of(client_identity@) {
                Ok(next) => {
                    &&& final(self)@ == next
                    &&& result matches Ok(check)
                    &&& old(self)@.checks(
                        (ChannelResponseArguments {
                            client_cookie: client_cookie@,
                            client_identity: client_identity@,
                            client_identity_proof_signature: client_identity_proof_signature@,
                        }),
                        check,
                    )
                },
                Err(error) => final(self)@ == old(self)@ && failed_with(result, error),
            },
    {
        if !self.takes_send_response() {
            return Err(GoslingError::Failure);
        }
        let built = match &self.requested_channel {
            Some(requested_channel) => build_client_proof(
                DomainSeparator::GoslingEndpoint,
                requested_channel.as_str(),
                &client_identity,
                &self.server_identity,
                &client_cookie,
                &self.server_cookie,
            ),
            None => Err(Error::BadArgument),
        };
        let bytes = match built {
            Ok(bytes) => bytes,
            Err(_) => {
                return Err(GoslingError::InvalidArg);
            },
        };
        self.client_allowed = client_identity.same(&self.allowed_client_identity);
        self.client_identity = Some(client_identity.clone());
        Ok(EndpointSignatureCheck { client_proof: bytes, client_identity, client_identity_proof_signature })
    }

    /// Takes a call of the RPC session. `begin_handshake` is taken while
    /// the server waits for it, and answered with the server cookie;
    /// `send_response` is taken once after that, and answered through
    /// `handle_signature_verification`. Both go by version 0 and need a request
    /// cookie. A call that is refused is answered with the error, and
    /// leaves the server as it was.
    pub fn exec_function(
        &mut self,
        name: &str,
        version: i32,
        arguments: bson::Document,
        request_cookie: Option<RequestCookie>,
    ) -> (result: Result<EndpointServerExec, GoslingError>)
        ensures
            match old(self)@.after_call(name@, version, arguments, request_cookie) {
                Ok(next) => {
                    &&& final(self)@ == next
                    &&& result matches Ok(answer)
                    &&& old(self)@.answers(name@, version, arguments, answer)
                },
                Err(error) => final(self)@ == old(self)@ && failed_with(result, error),
            },
    {
        if request_cookie.is_none() {
            return Err(GoslingError::RequestCookieRequired);
        }
        if same_text(name, "begin_handshake") && version == 0 && self.takes_begin_handshake() {
            let (call_version, channel) = match read_channel_request(arguments) {
                Some(call) => call,
                None => {
                    return Err(GoslingError::InvalidArg);
                },
            };
            match self.handle_begin_handshake(call_version, channel) {
                Ok(reply) => Ok(EndpointServerExec::Reply(reply)),
                Err(error) => Err(error),
            }
        } else if same_text(name, "send_response") && version == 0 && self.takes_send_response() {
            proof {
                reveal_strlit("send_response");
                reveal_strlit("begin_handshake");
                assert("send_response"@.len() != "begin_handshake"@.len());
            }
            let call = match read_channel_response(arguments) {
                Some(call) => call,
                None => {
                    return Err(GoslingError::InvalidArg);
                },
            };
            match self.handle_send_response(
                call.client_cookie,
                call.client_identity,
                call.client_identity_proof_signature,
            ) {
                Ok(check) => Ok(EndpointServerExec::Verify(check)),
                Err(error) => Err(error),
            }
        } else {
            Ok(EndpointServerExec::Deferred)
        }
    }

    /// Takes the driver's verdict on the signature of the `send_response`
    /// call, and gives the reply to that call: a document without entries
    /// where the client is the one that the endpoint was granted to and
    /// its proof was signed by the key behind its service id, `Failure`
    /// otherwise. Answers `Failure`, and changes nothing, unless the
    /// server waits for that verdict.
    pub fn handle_signature_verification(
        &mut self,
        proof_signature_valid: bool,
    ) -> (reply: Result<Value, GoslingError>)
        ensures
            final(self)@ == old(self)@.after_signature_verdict(proof_signature_valid),
            old(self)@.replies(proof_signature_valid, reply),
    {
        let waiting = match self.state {
            EndpointServerState::WaitingForSendResponse => true,
            _ => false,
        };
        if !(waiting && self.client_identity.is_some()) {
            return Err(GoslingError::Failure);
        }
        let succeeded = self.client_allowed && self.client_requested_channel_valid && proof_signature_valid;
        self.client_proof_signature_valid = proof_signature_valid;
        self.handshake_succeeded = Some(succeeded);
        self.state = EndpointServerState::HandledSendResponse;
        if succeeded {
            Ok(Value::Document(new_document()))
        } else {
            Err(GoslingError::Failure)
        }
    }

    /// A tick: hands out the event that the calls since the last tick
    /// have led to, if there is one. Fails with `InvalidState` once the
    /// handshake has come to its end.
    pub fn update(&mut self) -> (result: Result<Option<EndpointServerEvent>, Error>)
        ensures
            match old(self)@.after_update() {
                Ok(next) => {
                    &&& final(self)@ == next
                    &&& result matches Ok(event)
                    &&& old(self)@.announces(event)
                },
                Err(error) => final(self)@ == old(self)@ && failed_with(result, error),
            },
    {
        match self.state {
            EndpointServerState::HandshakeComplete => {
                return Err(Error::InvalidState);
            },
            _ => {},
        }
        if !self.channel_announced {
            match &self.requested_channel {
                Some(requested_channel) => {
                    let event = EndpointServerEvent::ChannelRequestReceived {
                        requested_channel: requested_channel.clone(),
                    };
                    self.channel_announced = true;
                    return Ok(Some(event));
                },
                None => {},
            }
        }
        match self.state {
            EndpointServerState::HandledSendResponse => {},
            _ => {
                return Ok(None);
            },
        }
        match (self.handshake_succeeded, &self.requested_channel, &self.client_identity) {
            (Some(succeeded), Some(requested_channel), Some(client_identity)) => {
                let event = if succeeded {
                    EndpointServerEvent::HandshakeCompleted {
                        client_service_id: client_identity.clone(),
                        channel_name: requested_channel.clone(),
                    }
                } else {
                    EndpointServerEvent::HandshakeRejected {
                        client_allowed: self.client_allowed,
                        client_requested_channel_valid: self.client_requested_channel_valid,
                        client_proof_signature_valid: self.client_proof_signature_valid,
                    }
                };
                self.state = EndpointServerState::HandshakeComplete;
                Ok(Some(event))
            },
            _ => Ok(None),
        }
    }
}

} // verus!
