//! The connecting side of the identity handshake: a peer asks an identity
//! server for an endpoint of its own.

use vstd::prelude::*;
use vstd::string::*;
use crate::client_proof::{
    build_client_proof, client_proof, ClientCookie, DomainSeparator, ServerCookie,
};
use crate::document::{document_shapes, new_document, no_entries, put, shape_at, take, Shape, Value};
use crate::error::Error;
use crate::keys::{
    array_of_32, draw_cookie, vec_of_32, vec_of_64, Ed25519Signature, GoslingX25519PrivateKey,
    GoslingX25519PublicKey,
};
use crate::rpc::{gosling_version, version_text, Call, RequestCookie, Response};
use crate::service_id::{is_service_id_text, GoslingV3OnionServiceId};

verus! {

/// What an identity client tells the application.
#[derive(Debug)]
pub enum IdentityClientEvent {
    /// The server sent its challenge. The application answers it through
    /// `send_response`.
    ChallengeReceived {
        identity_service_id: GoslingV3OnionServiceId,
        endpoint_name: String,
        endpoint_challenge: bson::Document,
    },
    /// The server granted the endpoint.
    HandshakeCompleted {
        identity_service_id: GoslingV3OnionServiceId,
        endpoint_service_id: GoslingV3OnionServiceId,
        endpoint_name: String,
        client_auth_private_key: GoslingX25519PrivateKey,
    },
}

/// Where an identity client stands in its handshake.
#[derive(Clone, Copy, Debug, PartialEq, Eq, Structural)]
pub enum IdentityClientState {
    BeginHandshake,
    WaitingForChallenge,
    WaitingForChallengeResponse,
    WaitingForChallengeVerification,
    HandshakeComplete,
}

/// What an identity client asks its driver to sign.
#[derive(Debug)]
pub struct IdentityProofRequest {
    /// The client proof, to be signed with the client's identity key.
    pub client_proof: Vec<u8>,
    /// The client's service id, to be signed with the client
    /// authorization key.
    pub client_identity: String,
    /// The private half of the client authorization key.
    pub client_auth_private_key: GoslingX25519PrivateKey,
}

/// What the driver signed for an identity client.
#[derive(Debug)]
pub struct IdentityProofSignatures {
    /// The signature of the client proof under the client's identity key.
    pub client_identity_proof_signature: Ed25519Signature,
    /// The public half of the client authorization key.
    pub client_authorization_key: GoslingX25519PublicKey,
    /// The sign bit of the ed25519 key that the client authorization key
    /// was turned into: 0 or 1.
    pub client_authorization_key_signbit: u8,
    /// The signature of the client's service id under the client
    /// authorization key.
    pub client_authorization_signature: Ed25519Signature,
}

/// What the driver of an identity client observed.
#[derive(Debug)]
pub enum IdentityClientInput {
    /// Nothing: the driver asks what the handshake needs.
    Tick,
    /// The call that the handshake asked for was handed to the RPC session
    /// under this cookie.
    CallIssued { cookie: RequestCookie },
    /// The RPC session has no response.
    NoResponse,
    /// The RPC session has this response.
    Response(Response),
    /// What the handshake asked to have signed was signed.
    Signed(IdentityProofSignatures),
    /// The RPC session failed.
    TransportFailed,
}

/// What an identity client asks of its driver.
#[derive(Debug)]
pub enum IdentityClientOutput {
    /// Nothing, until the next tick.
    Idle,
    /// Hand this call to the RPC session, and come back with `CallIssued`.
    Call(Call),
    /// Ask the RPC session for its next response, and come back with
    /// `Response` or `NoResponse`.
    PollResponse,
    /// Sign this, and come back with `Signed`.
    Sign(IdentityProofRequest),
    /// Hand this event to the application.
    Event(IdentityClientEvent),
}

/// An identity client: the state of one outbound identity handshake.
pub struct IdentityClient {
    server_service_id: GoslingV3OnionServiceId,
    requested_endpoint: String,
    client_service_id: GoslingV3OnionServiceId,
    client_auth_private_key: GoslingX25519PrivateKey,
    state: IdentityClientState,
    begin_handshake_request_cookie: Option<RequestCookie>,
    server_cookie: Option<ServerCookie>,
    client_cookie: Option<ClientCookie>,
    endpoint_challenge_response: Option<bson::Document>,
    send_response_request_cookie: Option<RequestCookie>,
}

/// The bytes of a nonce that may not have been drawn yet.
pub open spec fn cookie_bytes(cookie: Option<[u8; 32]>) -> Option<Seq<u8>> {
    match cookie {
        Some(cookie) => Some(cookie@),
        None => None,
    }
}

/// Whether what was drawn, if anything was drawn, has the 32 bytes of a
/// cookie.
pub open spec fn is_cookie_draw(drawn: Option<Seq<u8>>) -> bool {
    drawn matches Some(cookie) ==> cookie.len() == 32
}

/// A cookie that was drawn has 32 bytes.
pub proof fn lemma_cookie_draw(drawn: Option<[u8; 32]>)
    ensures
        is_cookie_draw(cookie_bytes(drawn)),
{
}

/// An identity client as the contracts speak of it.
pub struct IdentityClientView {
    pub server_service_id: Seq<char>,
    pub requested_endpoint: Seq<char>,
    pub client_service_id: Seq<char>,
    pub client_auth_private_key: Seq<u8>,
    pub state: IdentityClientState,
    pub begin_handshake_request_cookie: Option<RequestCookie>,
    pub server_cookie: Option<Seq<u8>>,
    pub client_cookie: Option<Seq<u8>>,
    pub endpoint_challenge_response: Option<bson::Document>,
    pub send_response_request_cookie: Option<RequestCookie>,
}

impl View for IdentityClient {
    type V = IdentityClientView;

    closed spec fn view(&self) -> IdentityClientView {
        IdentityClientView {
            server_service_id: self.server_service_id@,
            requested_endpoint: self.requested_endpoint@,
            client_service_id: self.client_service_id@,
            client_auth_private_key: self.client_auth_private_key@,
            state: self.state,
            begin_handshake_request_cookie: self.begin_handshake_request_cookie,
            server_cookie: cookie_bytes(self.server_cookie),
            client_cookie: cookie_bytes(self.client_cookie),
            endpoint_challenge_response: self.endpoint_challenge_response,
            send_response_request_cookie: self.send_response_request_cookie,
        }
    }
}

/// What the reply to `begin_handshake` holds, if it is well formed: a
/// document with a server cookie of 32 bytes and a challenge document.
pub open spec fn challenge_reply(result: Value) -> Option<(Seq<u8>, bson::Document)> {
    match result@ {
        Shape::Document(reply) => match shape_at(reply, "server_cookie"@) {
            Some(Shape::Binary(cookie)) => match shape_at(reply, "endpoint_challenge"@) {
                Some(Shape::Document(challenge)) => if cookie.len() == 32 {
                    Some((cookie, challenge))
                } else {
                    None
                },
                _ => None,
            },
            _ => None,
        },
        _ => None,
    }
}

/// What the reply to `send_response` holds, if it is well formed: the
/// text of a service id.
pub open spec fn endpoint_reply(result: Value) -> Option<Seq<char>> {
    match result@ {
        Shape::Text(text) => if is_service_id_text(text) {
            Some(text)
        } else {
            None
        },
        _ => None,
    }
}

/// Whether `call` is the `begin_handshake` call of the identity handshake
/// for this client and endpoint.
pub open spec fn is_identity_begin_handshake(
    call: Call,
    client_service_id: Seq<char>,
    endpoint: Seq<char>,
) -> bool {
    &&& call.namespace@ == "gosling_identity"@
    &&& call.function@ == "begin_handshake"@
    &&& call.version == 0
    &&& document_shapes(call.arguments) == no_entries().insert(
        "version"@,
        Shape::Text(gosling_version()),
    ).insert("client_identity"@, Shape::Text(client_service_id)).insert("endpoint"@, Shape::Text(endpoint))
}

/// Whether `call` is the `send_response` call of the identity handshake
/// that carries this cookie, these signatures and this answer to the
/// challenge.
pub open spec fn is_identity_send_response(
    call: Call,
    client_cookie: Seq<u8>,
    signatures: IdentityProofSignatures,
    challenge_response: bson::Document,
) -> bool {
    &&& call.namespace@ == "gosling_identity"@
    &&& call.function@ == "send_response"@
    &&& call.version == 0
    &&& document_shapes(call.arguments) == no_entries().insert(
        "client_cookie"@,
        Shape::Binary(client_cookie),
    ).insert(
        "client_identity_proof_signature"@,
        Shape::Binary(signatures.client_identity_proof_signature@),
    ).insert("client_authorization_key"@, Shape::Binary(signatures.client_authorization_key@)).insert(
        "client_authorization_key_signbit"@,
        Shape::Boolean(signatures.client_authorization_key_signbit == 1),
    ).insert(
        "client_authorization_signature"@,
        Shape::Binary(signatures.client_authorization_signature@),
    ).insert("challenge_response"@, Shape::Document(challenge_response))
}

impl IdentityClientView {
    /// The client before its first step.
    pub open spec fn initial(
        server_service_id: Seq<char>,
        requested_endpoint: Seq<char>,
        client_service_id: Seq<char>,
        client_auth_private_key: Seq<u8>,
    ) -> IdentityClientView {
        IdentityClientView {
            server_service_id,
            requested_endpoint,
            client_service_id,
            client_auth_private_key,
            state: IdentityClientState::BeginHandshake,
            begin_handshake_request_cookie: None,
            server_cookie: None,
            client_cookie: None,
            endpoint_challenge_response: None,
            send_response_request_cookie: None,
        }
    }

    /// Whether this step draws a fresh client cookie: the tick after the
    /// application has answered the challenge.
    pub open spec fn draws_cookie(self, input: IdentityClientInput) -> bool {
        &&& input is Tick
        &&& self.state is WaitingForChallengeResponse
        &&& self.endpoint_challenge_response is Some
        &&& self.client_cookie is None
        &&& self.server_cookie is Some
        &&& vstd::utf8::is_ascii_chars(self.requested_endpoint)
    }

    /// The cookie of the request whose response the client waits for.
    pub open spec fn awaited_cookie(self) -> Option<RequestCookie> {
        match self.state {
            IdentityClientState::WaitingForChallenge => self.begin_handshake_request_cookie,
            IdentityClientState::WaitingForChallengeVerification => self.send_response_request_cookie,
            _ => None,
        }
    }

    /// The client after the application has answered the challenge with
    /// `challenge_response`, or why it does not take the answer.
    pub open spec fn after_send_response(
        self,
        challenge_response: bson::Document,
    ) -> Result<IdentityClientView, Error> {
        if self.state is WaitingForChallengeResponse && self.client_cookie is None {
            Ok(IdentityClientView { endpoint_challenge_response: Some(challenge_response), ..self })
        } else {
            Err(Error::IncorrectUsage)
        }
    }

    /// The client after a tick, where `drawn` is the cookie that was drawn
    /// for it.
    pub open spec fn after_tick(self, drawn: Option<Seq<u8>>) -> Result<IdentityClientView, Error> {
        match self.state {
            IdentityClientState::BeginHandshake => if vstd::utf8::is_ascii_chars(self.requested_endpoint) {
                Ok(self)
            } else {
                Err(Error::BadArgument)
            },
            IdentityClientState::WaitingForChallengeResponse => if self.endpoint_challenge_response is Some {
                if self.server_cookie is None {
                    Err(Error::InvalidState)
                } else if !vstd::utf8::is_ascii_chars(self.requested_endpoint) {
                    Err(Error::BadArgument)
                } else if self.client_cookie is Some {
                    Ok(self)
                } else {
                    match drawn {
                        Some(cookie) => Ok(IdentityClientView { client_cookie: Some(cookie), ..self }),
                        None => Err(Error::EntropyUnavailable),
                    }
                }
            } else {
                Ok(self)
            },
            _ => Ok(self),
        }
    }

    /// The client after the call it asked for was issued under `cookie`.
    pub open spec fn after_call_issued(self, cookie: RequestCookie) -> Result<IdentityClientView, Error> {
        match self.state {
            IdentityClientState::BeginHandshake => Ok(
                IdentityClientView {
                    begin_handshake_request_cookie: Some(cookie),
                    state: IdentityClientState::WaitingForChallenge,
                    ..self
                },
            ),
            IdentityClientState::WaitingForChallengeResponse => if self.endpoint_challenge_response is None
                && self.client_cookie is Some {
                Ok(
                    IdentityClientView {
                        send_response_request_cookie: Some(cookie),
                        state: IdentityClientState::WaitingForChallengeVerification,
                        ..self
                    },
                )
            } else {
                Err(Error::InvalidState)
            },
            _ => Err(Error::InvalidState),
        }
    }

    /// The client after a response of the RPC session.
    pub open spec fn after_response(self, response: Response) -> Result<IdentityClientView, Error> {
        if self.awaited_cookie() != Some(response.spec_cookie()) {
            Err(Error::InvalidState)
        } else {
            match response {
                Response::Pending { .. } => Ok(self),
                Response::Error { error_code, .. } => Err(Error::RpcRemote(error_code)),
                Response::Success { result, .. } => if self.state is WaitingForChallenge {
                    match challenge_reply(result) {
                        Some((cookie, challenge)) => Ok(
                            IdentityClientView {
                                server_cookie: Some(cookie),
                                state: IdentityClientState::WaitingForChallengeResponse,
                                ..self
                            },
                        ),
                        None => Err(Error::BadArgument),
                    }
                } else {
                    match endpoint_reply(result) {
                        Some(endpoint_service_id) => Ok(
                            IdentityClientView { state: IdentityClientState::HandshakeComplete, ..self },
                        ),
                        None => Err(Error::BadArgument),
                    }
                },
            }
        }
    }

    /// The client after the driver has signed what it was asked to sign.
    pub open spec fn after_signed(
        self,
        signatures: IdentityProofSignatures,
    ) -> Result<IdentityClientView, Error> {
        if self.state is WaitingForChallengeResponse && self.endpoint_challenge_response is Some
            && self.client_cookie is Some {
            if signatures.client_authorization_key_signbit > 1 {
                Err(Error::BadArgument)
            } else {
                Ok(IdentityClientView { endpoint_challenge_response: None, ..self })
            }
        } else {
            Err(Error::InvalidState)
        }
    }

    /// The client after one step, or the error that ends the handshake.
    /// On an error the client is left as it was.
    pub open spec fn next(
        self,
        input: IdentityClientInput,
        drawn: Option<Seq<u8>>,
    ) -> Result<IdentityClientView, Error> {
        if self.state is HandshakeComplete {
            Err(Error::InvalidState)
        } else {
            match input {
                IdentityClientInput::Tick => self.after_tick(drawn),
                IdentityClientInput::CallIssued { cookie } => self.after_call_issued(cookie),
                IdentityClientInput::NoResponse => if self.awaited_cookie() is Some {
                    Ok(self)
                } else {
                    Err(Error::InvalidState)
                },
                IdentityClientInput::Response(response) => self.after_response(response),
                IdentityClientInput::Signed(signatures) => self.after_signed(signatures),
                IdentityClientInput::TransportFailed => Err(Error::RpcTransport),
            }
        }
    }

    /// What the client asks of its driver at a tick that leaves it in the
    /// state `self`.
    pub open spec fn asks(self, output: IdentityClientOutput) -> bool {
        match self.state {
            IdentityClientState::BeginHandshake => output matches IdentityClientOutput::Call(call)
                && is_identity_begin_handshake(call, self.client_service_id, self.requested_endpoint),
            IdentityClientState::WaitingForChallenge => output is PollResponse,
            IdentityClientState::WaitingForChallengeVerification => output is PollResponse,
            IdentityClientState::WaitingForChallengeResponse => if self.endpoint_challenge_response is Some {
                &&& output matches IdentityClientOutput::Sign(request)
                &&& self.client_cookie is Some
                &&& self.server_cookie is Some
                &&& request.client_proof@ == client_proof(
                    DomainSeparator::GoslingIdentity,
                    self.requested_endpoint,
                    self.client_service_id,
                    self.server_service_id,
                    self.client_cookie.unwrap(),
                    self.server_cookie.unwrap(),
                )
                &&& request.client_identity@ == self.client_service_id
                &&& request.client_auth_private_key@ == self.client_auth_private_key
            } else {
                output is Idle
            },
            IdentityClientState::HandshakeComplete => false,
        }
    }

    /// What a step that succeeds hands to the driver. `self` is the client
    /// before the step and `next` the client after it.
    pub open spec fn emits(
        self,
        input: IdentityClientInput,
        next: IdentityClientView,
        output: IdentityClientOutput,
    ) -> bool {
        match input {
            IdentityClientInput::Tick => next.asks(output),
            IdentityClientInput::CallIssued { .. } => output is Idle,
            IdentityClientInput::NoResponse => output is Idle,
            IdentityClientInput::Response(response) => match response {
                Response::Success { result, .. } => if self.state is WaitingForChallenge {
                    &&& output matches IdentityClientOutput::Event(
                        IdentityClientEvent::ChallengeReceived { identity_service_id, endpoint_name, endpoint_challenge },
                    )
                    &&& identity_service_id@ == self.server_service_id
                    &&& endpoint_name@ == self.requested_endpoint
                    &&& challenge_reply(result) matches Some(reply)
                    &&& endpoint_challenge == reply.1
                } else {
                    &&& output matches IdentityClientOutput::Event(
                        IdentityClientEvent::HandshakeCompleted {
                            identity_service_id,
                            endpoint_service_id,
                            endpoint_name,
                            client_auth_private_key,
                        },
                    )
                    &&& identity_service_id@ == self.server_service_id
                    &&& Some(endpoint_service_id@) == endpoint_reply(result)
                    &&& endpoint_name@ == self.requested_endpoint
                    &&& client_auth_private_key@ == self.client_auth_private_key
                },
                _ => output is Idle,
            },
            IdentityClientInput::Signed(signatures) => {
                &&& output matches IdentityClientOutput::Call(call)
                &&& self.client_cookie is Some
                &&& self.endpoint_challenge_response is Some
                &&& is_identity_send_response(
                    call,
                    self.client_cookie.unwrap(),
                    signatures,
                    self.endpoint_challenge_response.unwrap(),
                )
            },
            IdentityClientInput::TransportFailed => false,
        }
    }

    /// What holds of a step: a success leaves the client in the state that
    /// `next` gives and hands out what `emits` describes; a failure leaves
    /// the client as it was and hands out the error of `next`.
    pub open spec fn step(
        self,
        input: IdentityClientInput,
        drawn: Option<Seq<u8>>,
        after: IdentityClientView,
        result: Result<IdentityClientOutput, Error>,
    ) -> bool {
        match self.next(input, drawn) {
            Ok(next) => {
                &&& after == next
                &&& result matches Ok(output)
                &&& self.emits(input, next, output)
            },
            Err(error) => {
                &&& after == self
                &&& result matches Err(e)
                &&& e == error
            },
        }
    }
}


/// Reads the reply to `begin_handshake`.
fn read_challenge_reply(result: Value) -> (reply: Option<(ServerCookie, bson::Document)>)
    ensures
        reply is Some <==> challenge_reply(result) is Some,
        reply matches Some(found) ==> challenge_reply(result) == Some((found.0@, found.1)),
{
    proof {
        reveal_strlit("server_cookie");
        reveal_strlit("endpoint_challenge");
        assert("server_cookie"@.len() != "endpoint_challenge"@.len());
    }
    match result {
        Value::Document(reply) => {
            let mut reply = reply;
            let ghost given = reply;
            let cookie = take(&mut reply, "server_cookie");
            let challenge = take(&mut reply, "endpoint_challenge");
            assert(shape_at(given, "endpoint_challenge"@) == crate::document::option_shape(challenge));
            match (cookie, challenge) {
                (Some(Value::Binary(bytes)), Some(Value::Document(challenge))) => {
                    match array_of_32(&bytes) {
                        Some(cookie) => Some((cookie, challenge)),
                        None => None,
                    }
                },
                _ => None,
            }
        },
        _ => None,
    }
}

/// Reads the reply to `send_response`.
fn read_endpoint_reply(result: Value) -> (reply: Option<GoslingV3OnionServiceId>)
    ensures
        reply is Some <==> endpoint_reply(result) is Some,
        reply matches Some(found) ==> endpoint_reply(result) == Some(found@),
{
    match result {
        Value::Text(text) => match GoslingV3OnionServiceId::from_string(text.as_str()) {
            Ok(service_id) => Some(service_id),
            Err(_) => None,
        },
        _ => None,
    }
}

impl IdentityClient {
    /// A client that asks the identity server `server_service_id` for the
    /// endpoint `requested_endpoint`, under the identity
    /// `client_service_id`, and that offers `client_auth_private_key` as
    /// the key of the endpoint's client authorization.
    pub fn new(
        server_service_id: GoslingV3OnionServiceId,
        requested_endpoint: String,
        client_service_id: GoslingV3OnionServiceId,
        client_auth_private_key: GoslingX25519PrivateKey,
    ) -> (client: IdentityClient)
        ensures
            client@ == IdentityClientView::initial(
                server_service_id@,
                requested_endpoint@,
                client_service_id@,
                client_auth_private_key@,
            ),
    {
        IdentityClient {
            server_service_id,
            requested_endpoint,
            client_service_id,
            client_auth_private_key,
            state: IdentityClientState::BeginHandshake,
            begin_handshake_request_cookie: None,
            server_cookie: None,
            client_cookie: None,
            endpoint_challenge_response: None,
            send_response_request_cookie: None,
        }
    }

    /// Where the client stands.
    pub fn state(&self) -> (state: IdentityClientState)
        ensures
            state == self@.state,
    {
        self.state
    }

    /// Whether the handshake has come to its end.
    pub fn is_complete(&self) -> (complete: bool)
        ensures
            complete == (self@.state is HandshakeComplete),
    {
        match self.state {
            IdentityClientState::HandshakeComplete => true,
            _ => false,
        }
    }

    /// Takes the application's answer to the server's challenge. The
    /// answer is sent at the next tick. Fails with `IncorrectUsage` unless
    /// the client waits for that answer.
    pub fn send_response(&mut self, challenge_response: bson::Document) -> (result: Result<(), Error>)
        ensures
            match old(self)@.after_send_response(challenge_response) {
                Ok(next) => final(self)@ == next && result is Ok,
                Err(error) => final(self)@ == old(self)@ && result == Err::<(), Error>(error),
            },
    {
        match (self.state, &self.client_cookie) {
            (IdentityClientState::WaitingForChallengeResponse, None) => {
                self.endpoint_challenge_response = Some(challenge_response);
                Ok(())
            },
            _ => Err(Error::IncorrectUsage),
        }
    }

    fn begin_handshake_call(&self) -> (call: Call)
        ensures
            is_identity_begin_handshake(call, self@.client_service_id, self@.requested_endpoint),
    {
        let mut arguments = new_document();
        put(&mut arguments, "version", Value::Text(version_text().to_owned()));
        put(&mut arguments, "client_identity", Value::Text(self.client_service_id.to_string()));
        put(&mut arguments, "endpoint", Value::Text(self.requested_endpoint.clone()));
        Call {
            namespace: "gosling_identity".to_owned(),
            function: "begin_handshake".to_owned(),
            version: 0,
            arguments,
        }
    }

    fn tick(&mut self, drawn: Option<ClientCookie>) -> (result: Result<IdentityClientOutput, Error>)
        requires
            !(old(self)@.state is HandshakeComplete),
        ensures
            old(self)@.step(IdentityClientInput::Tick, cookie_bytes(drawn), final(self)@, result),
    {
        match self.state {
            IdentityClientState::BeginHandshake => {
                if !self.requested_endpoint.as_str().is_ascii() {
                    return Err(Error::BadArgument);
                }
                Ok(IdentityClientOutput::Call(self.begin_handshake_call()))
            },
            IdentityClientState::WaitingForChallenge => Ok(IdentityClientOutput::PollResponse),
            IdentityClientState::WaitingForChallengeVerification => Ok(IdentityClientOutput::PollResponse),
            IdentityClientState::WaitingForChallengeResponse => {
                if self.endpoint_challenge_response.is_none() {
                    return Ok(IdentityClientOutput::Idle);
                }
                let server_cookie = match self.server_cookie {
                    Some(server_cookie) => server_cookie,
                    None => {
                        return Err(Error::InvalidState);
                    },
                };
                if !self.requested_endpoint.as_str().is_ascii() {
                    return Err(Error::BadArgument);
                }
                let client_cookie = match self.client_cookie {
                    Some(client_cookie) => client_cookie,
                    None => match drawn {
                        Some(client_cookie) => client_cookie,
                        None => {
                            return Err(Error::EntropyUnavailable);
                        },
                    },
                };
                let built = build_client_proof(
                    DomainSeparator::GoslingIdentity,
                    self.requested_endpoint.as_str(),
                    &self.client_service_id,
                    &self.server_service_id,
                    &client_cookie,
                    &server_cookie,
                );
                match built {
                    Ok(bytes) => {
                        self.client_cookie = Some(client_cookie);
                        Ok(
                            IdentityClientOutput::Sign(
                                IdentityProofRequest {
                                    client_proof: bytes,
                                    client_identity: self.client_service_id.to_string(),
                                    client_auth_private_key: self.client_auth_private_key,
                                },
                            ),
                        )
                    },
                    Err(error) => Err(error),
                }
            },
            IdentityClientState::HandshakeComplete => Err(Error::InvalidState),
        }
    }

    fn call_issued(&mut self, cookie: RequestCookie) -> (result: Result<IdentityClientOutput, Error>)
        requires
            !(old(self)@.state is HandshakeComplete),
        ensures
            old(self)@.step(IdentityClientInput::CallIssued { cookie }, None, final(self)@, result),
    {
        match self.state {
            IdentityClientState::BeginHandshake => {
                self.begin_handshake_request_cookie = Some(cookie);
                self.state = IdentityClientState::WaitingForChallenge;
                Ok(IdentityClientOutput::Idle)
            },
            IdentityClientState::WaitingForChallengeResponse => {
                if self.endpoint_challenge_response.is_none() && self.client_cookie.is_some() {
                    self.send_response_request_cookie = Some(cookie);
                    self.state = IdentityClientState::WaitingForChallengeVerification;
                    Ok(IdentityClientOutput::Idle)
                } else {
                    Err(Error::InvalidState)
                }
            },
            _ => Err(Error::InvalidState),
        }
    }

    fn awaited(&self) -> (cookie: Option<RequestCookie>)
        ensures
            cookie == self@.awaited_cookie(),
    {
        match self.state {
            IdentityClientState::WaitingForChallenge => self.begin_handshake_request_cookie,
            IdentityClientState::WaitingForChallengeVerification => self.send_response_request_cookie,
            _ => None,
        }
    }

    fn response(&mut self, response: Response) -> (result: Result<IdentityClientOutput, Error>)
        requires
            !(old(self)@.state is HandshakeComplete),
        ensures
            old(self)@.step(IdentityClientInput::Response(response), None, final(self)@, result),
    {
        let expected = match self.awaited() {
            Some(expected) => expected,
            None => {
                return Err(Error::InvalidState);
            },
        };
        if response.cookie() != expected {
            return Err(Error::InvalidState);
        }
        match response {
            Response::Pending { .. } => Ok(IdentityClientOutput::Idle),
            Response::Error { error_code, .. } => Err(Error::RpcRemote(error_code)),
            Response::Success { result, .. } => {
                match self.state {
                    IdentityClientState::WaitingForChallenge => match read_challenge_reply(result) {
                        Some((server_cookie, endpoint_challenge)) => {
                            self.server_cookie = Some(server_cookie);
                            self.state = IdentityClientState::WaitingForChallengeResponse;
                            Ok(
                                IdentityClientOutput::Event(
                                    IdentityClientEvent::ChallengeReceived {
                                        identity_service_id: self.server_service_id.clone(),
                                        endpoint_name: self.requested_endpoint.clone(),
                                        endpoint_challenge,
                                    },
                                ),
                            )
                        },
                        None => Err(Error::BadArgument),
                    },
                    _ => match read_endpoint_reply(result) {
                        Some(endpoint_service_id) => {
                            self.state = IdentityClientState::HandshakeComplete;
                            Ok(
                                IdentityClientOutput::Event(
                                    IdentityClientEvent::HandshakeCompleted {
                                        identity_service_id: self.server_service_id.clone(),
                                        endpoint_service_id,
                                        endpoint_name: self.requested_endpoint.clone(),
                                        client_auth_private_key: self.client_auth_private_key,
                                    },
                                ),
                            )
                        },
                        None => Err(Error::BadArgument),
                    },
                }
            },
        }
    }

    fn signed(&mut self, signatures: IdentityProofSignatures) -> (result: Result<IdentityClientOutput, Error>)
        requires
            !(old(self)@.state is HandshakeComplete),
        ensures
            old(self)@.step(IdentityClientInput::Signed(signatures), None, final(self)@, result),
    {
        match self.state {
            IdentityClientState::WaitingForChallengeResponse => {},
            _ => {
                return Err(Error::InvalidState);
            },
        }
        let client_cookie = match self.client_cookie {
            Some(client_cookie) => client_cookie,
            None => {
                return Err(Error::InvalidState);
            },
        };
        if self.endpoint_challenge_response.is_none() {
            return Err(Error::InvalidState);
        }
        if signatures.client_authorization_key_signbit > 1 {
            return Err(Error::BadArgument);
        }
        let challenge_response = match self.endpoint_challenge_response.take() {
            Some(challenge_response) => challenge_response,
            None => {
                return Err(Error::InvalidState);
            },
        };
        let mut arguments = new_document();
        put(&mut arguments, "client_cookie", Value::Binary(vec_of_32(&client_cookie)));
        put(
            &mut arguments,
            "client_identity_proof_signature",
            Value::Binary(vec_of_64(&signatures.client_identity_proof_signature)),
        );
        put(
            &mut arguments,
            "client_authorization_key",
            Value::Binary(vec_of_32(signatures.client_authorization_key.as_bytes())),
        );
        put(
            &mut arguments,
            "client_authorization_key_signbit",
            Value::Boolean(signatures.client_authorization_key_signbit == 1),
        );
        put(
            &mut arguments,
            "client_authorization_signature",
            Value::Binary(vec_of_64(&signatures.client_authorization_signature)),
        );
        put(&mut arguments, "challenge_response", Value::Document(challenge_response));
        Ok(
            IdentityClientOutput::Call(
                Call {
                    namespace: "gosling_identity".to_owned(),
                    function: "send_response".to_owned(),
                    version: 0,
                    arguments,
                },
            ),
        )
    }

    /// One step of the handshake, with the cookie `drawn` at hand for the
    /// step that needs one. What it does is `step` of the client's view.
    pub fn advance(
        &mut self,
        input: IdentityClientInput,
        drawn: Option<ClientCookie>,
    ) -> (result: Result<IdentityClientOutput, Error>)
        ensures
            old(self)@.step(input, cookie_bytes(drawn), final(self)@, result),
    {
        if self.is_complete() {
            return Err(Error::InvalidState);
        }
        match input {
            IdentityClientInput::Tick => self.tick(drawn),
            IdentityClientInput::CallIssued { cookie } => self.call_issued(cookie),
            IdentityClientInput::NoResponse => match self.awaited() {
                Some(_) => Ok(IdentityClientOutput::Idle),
                None => Err(Error::InvalidState),
            },
            IdentityClientInput::Response(response) => self.response(response),
            IdentityClientInput::Signed(signatures) => self.signed(signatures),
            IdentityClientInput::TransportFailed => Err(Error::RpcTransport),
        }
    }

    /// Whether the step on `input` draws a cookie.
    pub fn draws_cookie(&self, input: &IdentityClientInput) -> (draws: bool)
        ensures
            draws == self@.draws_cookie(*input),
    {
        let tick = match input {
            IdentityClientInput::Tick => true,
            _ => false,
        };
        let waiting = match self.state {
            IdentityClientState::WaitingForChallengeResponse => true,
            _ => false,
        };
        tick && waiting && self.endpoint_challenge_response.is_some() && self.client_cookie.is_none()
            && self.server_cookie.is_some() && self.requested_endpoint.as_str().is_ascii()
    }

    /// One step of the handshake. The step that sends the answer to the
    /// challenge draws its client cookie, of 32 bytes, from the operating
    /// system; every other step is `advance` without a cookie.
    pub fn update(&mut self, input: IdentityClientInput) -> (result: Result<IdentityClientOutput, Error>)
        ensures
            !old(self)@.draws_cookie(input) ==> old(self)@.step(input, None, final(self)@, result),
            old(self)@.draws_cookie(input) ==> exists|drawn: Option<Seq<u8>>|
                is_cookie_draw(drawn) && #[trigger] old(self)@.step(input, drawn, final(self)@, result),
    {
        if self.draws_cookie(&input) {
            let drawn = draw_cookie();
            let result = self.advance(input, drawn);
            proof {
                lemma_cookie_draw(drawn);
            }
            assert(old(self)@.step(input, cookie_bytes(drawn), self@, result));
            result
        } else {
            self.advance(input, None)
        }
    }
}

} // verus!
