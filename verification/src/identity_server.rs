//! The listening side of the identity handshake: for one inbound
//! connection, decide whether the caller is given an endpoint of its own.

use vstd::prelude::*;
use vstd::string::*;
use crate::client_proof::{
    build_client_proof, client_proof, ClientCookie, DomainSeparator, ServerCookie,
};
use crate::document::{
    document_shapes, new_document, no_entries, option_shape, put, shape_at, take, Shape, Value,
};
use crate::error::{failed_with, Error, GoslingError};
use crate::identity_client::{cookie_bytes, is_cookie_draw, lemma_cookie_draw};
use crate::keys::{
    array_of_32, array_of_64, draw_cookie, vec_of_32, Ed25519Signature, GoslingEd25519PrivateKey,
    GoslingX25519PublicKey,
};
use crate::encoding::same_text;
use crate::rpc::{gosling_version, version_text, RequestCookie};
use crate::service_id::{is_service_id_text, GoslingV3OnionServiceId};

verus! {

/// What an identity server tells the application.
#[derive(Debug)]
pub enum IdentityServerEvent {
    /// A client asked for an endpoint. The application answers through
    /// `send_challenge`.
    EndpointRequestReceived { client_service_id: GoslingV3OnionServiceId, requested_endpoint: String },
    /// The client answered the challenge. The application answers through
    /// `send_challenge_verification`.
    ChallengeResponseReceived { challenge_response: bson::Document },
    /// The client was given an endpoint.
    HandshakeCompleted {
        endpoint_private_key: GoslingEd25519PrivateKey,
        endpoint_name: String,
        client_service_id: GoslingV3OnionServiceId,
        client_auth_public_key: GoslingX25519PublicKey,
    },
    /// The client was turned away. Each flag says whether that check
    /// passed.
    HandshakeRejected {
        client_allowed: bool,
        client_requested_endpoint_valid: bool,
        client_proof_signature_valid: bool,
        client_auth_signature_valid: bool,
        challenge_response_valid: bool,
    },
}

/// Where an identity server stands in its handshake.
#[derive(Clone, Copy, Debug, PartialEq, Eq, Structural)]
pub enum IdentityServerState {
    WaitingForBeginHandshake,
    GettingChallenge,
    ChallengeReady,
    WaitingForSendResponse,
    GettingChallengeVerification,
    ChallengeVerificationReady,
    ChallengeVerificationResponseSent,
    HandshakeComplete,
}

/// The application's verdict on a client's answer to the challenge.
#[derive(Clone, Copy, Debug, PartialEq, Eq, Structural)]
pub enum GoslingChallengeResponseResult {
    /// The answer is the right one.
    Valid,
    /// The answer is a wrong one.
    Invalid,
    /// The application has not made up its mind.
    Pending,
}

impl GoslingChallengeResponseResult {
    /// The verdict as a boolean, once there is one.
    pub open spec fn spec_verdict(self) -> Option<bool> {
        match self {
            GoslingChallengeResponseResult::Valid => Some(true),
            GoslingChallengeResponseResult::Invalid => Some(false),
            GoslingChallengeResponseResult::Pending => None,
        }
    }

    /// The verdict as a boolean, once there is one.
    #[verifier::when_used_as_spec(spec_verdict)]
    pub fn verdict(self) -> (verdict: Option<bool>)
        ensures
            verdict == self.spec_verdict(),
    {
        match self {
            GoslingChallengeResponseResult::Valid => Some(true),
            GoslingChallengeResponseResult::Invalid => Some(false),
            GoslingChallengeResponseResult::Pending => None,
        }
    }
}

/// The two signatures of a `send_response` call, with what they must be
/// checked against.
#[derive(Debug)]
pub struct IdentitySignatureCheck {
    /// The client proof that `client_identity_proof_signature` should be
    /// a signature of, under the key behind `client_identity`. `None`
    /// where no proof can be built for the endpoint that was asked for:
    /// the signature then counts as invalid.
    pub client_proof: Option<Vec<u8>>,
    /// The service id that the client claims.
    pub client_identity: GoslingV3OnionServiceId,
    /// The signature that came as the proof of that claim.
    pub client_identity_proof_signature: Ed25519Signature,
    /// The client authorization key that came with the call.
    pub client_authorization_key: GoslingX25519PublicKey,
    /// The sign bit that came with that key: 0 or 1.
    pub client_authorization_key_signbit: u8,
    /// The signature of the client's service id that came with the call,
    /// to be checked under the client authorization key and its sign bit.
    pub client_authorization_signature: Ed25519Signature,
}

/// What an identity server answers a call with at once.
#[derive(Debug)]
pub enum IdentityServerExec {
    /// Nothing yet: the reply comes later, through `next_result`.
    Deferred,
    /// Nothing yet; and the driver checks these signatures and reports
    /// through `handle_signature_verification` before anything else.
    Verify(IdentitySignatureCheck),
}

/// What an identity server has for the RPC session to send.
#[derive(Debug)]
pub enum IdentityServerResult {
    /// Nothing.
    Nothing,
    /// The reply to the request that went by `cookie`.
    Reply { cookie: RequestCookie, result: Result<Value, GoslingError> },
    /// Nothing yet: the handshake succeeded, and the driver generates the
    /// endpoint's key and reports it through `handle_endpoint_key`.
    GenerateEndpointKey,
}

/// An identity server: the state of one inbound identity handshake.
pub struct IdentityServer {
    server_identity: GoslingV3OnionServiceId,
    state: IdentityServerState,
    begin_handshake_request_cookie: Option<RequestCookie>,
    client_identity: Option<GoslingV3OnionServiceId>,
    requested_endpoint: Option<String>,
    server_cookie: Option<ServerCookie>,
    endpoint_challenge: Option<bson::Document>,
    send_response_request_cookie: Option<RequestCookie>,
    client_auth_key: Option<GoslingX25519PublicKey>,
    challenge_response: Option<bson::Document>,
    proof_built: bool,
    signatures_checked: bool,
    endpoint: Option<EndpointKey>,
    client_allowed: bool,
    client_requested_endpoint_valid: bool,
    client_proof_signature_valid: bool,
    client_auth_signature_valid: bool,
    challenge_response_valid: bool,
}

/// The key of the endpoint that a server grants, with its service id.
struct EndpointKey {
    private_key: GoslingEd25519PrivateKey,
    service_id: GoslingV3OnionServiceId,
}

/// An identity server as the contracts speak of it.
pub struct IdentityServerView {
    pub server_identity: Seq<char>,
    pub state: IdentityServerState,
    pub begin_handshake_request_cookie: Option<RequestCookie>,
    pub client_identity: Option<Seq<char>>,
    pub requested_endpoint: Option<Seq<char>>,
    pub server_cookie: Option<Seq<u8>>,
    pub endpoint_challenge: Option<bson::Document>,
    pub send_response_request_cookie: Option<RequestCookie>,
    pub client_auth_key: Option<Seq<u8>>,
    pub challenge_response: Option<bson::Document>,
    pub proof_built: bool,
    pub signatures_checked: bool,
    pub endpoint_private_key: Option<Seq<u8>>,
    pub endpoint_service_id: Option<Seq<char>>,
    pub client_allowed: bool,
    pub client_requested_endpoint_valid: bool,
    pub client_proof_signature_valid: bool,
    pub client_auth_signature_valid: bool,
    pub challenge_response_valid: bool,
}

/// The text of a service id that may not be known yet.
pub open spec fn id_text(id: Option<GoslingV3OnionServiceId>) -> Option<Seq<char>> {
    match id {
        Some(id) => Some(id@),
        None => None,
    }
}

/// The characters of a text that may not be known yet.
pub open spec fn text_chars(text: Option<String>) -> Option<Seq<char>> {
    match text {
        Some(text) => Some(text@),
        None => None,
    }
}

/// The bytes of a public key that may not be known yet.
pub open spec fn public_key_bytes(key: Option<GoslingX25519PublicKey>) -> Option<Seq<u8>> {
    match key {
        Some(key) => Some(key@),
        None => None,
    }
}

impl View for IdentityServer {
    type V = IdentityServerView;

    closed spec fn view(&self) -> IdentityServerView {
        IdentityServerView {
            server_identity: self.server_identity@,
            state: self.state,
            begin_handshake_request_cookie: self.begin_handshake_request_cookie,
            client_identity: id_text(self.client_identity),
            requested_endpoint: text_chars(self.requested_endpoint),
            server_cookie: cookie_bytes(self.server_cookie),
            endpoint_challenge: self.endpoint_challenge,
            send_response_request_cookie: self.send_response_request_cookie,
            client_auth_key: public_key_bytes(self.client_auth_key),
            challenge_response: self.challenge_response,
            proof_built: self.proof_built,
            signatures_checked: self.signatures_checked,
            endpoint_private_key: match self.endpoint {
                Some(endpoint) => Some(endpoint.private_key@),
                None => None,
            },
            endpoint_service_id: match self.endpoint {
                Some(endpoint) => Some(endpoint.service_id@),
                None => None,
            },
            client_allowed: self.client_allowed,
            client_requested_endpoint_valid: self.client_requested_endpoint_valid,
            client_proof_signature_valid: self.client_proof_signature_valid,
            client_auth_signature_valid: self.client_auth_signature_valid,
            challenge_response_valid: self.challenge_response_valid,
        }
    }
}

/// The arguments of a `begin_handshake` call of the identity handshake,
/// if they are well formed: three texts.
pub struct BeginHandshakeArguments {
    pub version: Seq<char>,
    pub client_identity: Seq<char>,
    pub endpoint: Seq<char>,
}

/// The arguments of a `send_response` call of the identity handshake,
/// if they are well formed.
pub struct SendResponseArguments {
    pub client_cookie: Seq<u8>,
    pub client_identity_proof_signature: Seq<u8>,
    pub client_authorization_key: Seq<u8>,
    pub client_authorization_key_signbit: bool,
    pub client_authorization_signature: Seq<u8>,
    pub challenge_response: bson::Document,
}

/// Reads the arguments of `begin_handshake`: `None` unless `version`,
/// `client_identity` and `endpoint` are all there and all text.
pub open spec fn begin_handshake_arguments(arguments: bson::Document) -> Option<BeginHandshakeArguments> {
    match shape_at(arguments, "version"@) {
        Some(Shape::Text(version)) => match shape_at(arguments, "client_identity"@) {
            Some(Shape::Text(client_identity)) => match shape_at(arguments, "endpoint"@) {
                Some(Shape::Text(endpoint)) => Some(BeginHandshakeArguments { version, client_identity, endpoint }),
                _ => None,
            },
            _ => None,
        },
        _ => None,
    }
}

/// Reads the arguments of `send_response`: `None` unless all six are
/// there with their shapes, the cookie and the key with 32 bytes and the
/// signatures with 64.
pub open spec fn send_response_arguments(arguments: bson::Document) -> Option<SendResponseArguments> {
    match shape_at(arguments, "client_cookie"@) {
        Some(Shape::Binary(client_cookie)) => match shape_at(arguments, "client_identity_proof_signature"@) {
            Some(Shape::Binary(client_identity_proof_signature)) => match shape_at(
                arguments,
                "client_authorization_key"@,
            ) {
                Some(Shape::Binary(client_authorization_key)) => match shape_at(
                    arguments,
                    "client_authorization_key_signbit"@,
                ) {
                    Some(Shape::Boolean(client_authorization_key_signbit)) => match shape_at(
                        arguments,
                        "client_authorization_signature"@,
                    ) {
                        Some(Shape::Binary(client_authorization_signature)) => match shape_at(
                            arguments,
                            "challenge_response"@,
                        ) {
                            Some(Shape::Document(challenge_response)) => if client_cookie.len() == 32
                                && client_identity_proof_signature.len() == 64 && client_authorization_key.len()
                                == 32 && client_authorization_signature.len() == 64 {
                                Some(
                                    SendResponseArguments {
                                        client_cookie,
                                        client_identity_proof_signature,
                                        client_authorization_key,
                                        client_authorization_key_signbit,
                                        client_authorization_signature,
                                        challenge_response,
                                    },
                                )
                            } else {
                                None
                            },
                            _ => None,
                        },
                        _ => None,
                    },
                    _ => None,
                },
                _ => None,
            },
            _ => None,
        },
        _ => None,
    }
}

impl IdentityServerView {
    /// The server before its first call.
    pub open spec fn initial(server_identity: Seq<char>) -> IdentityServerView {
        IdentityServerView {
            server_identity,
            state: IdentityServerState::WaitingForBeginHandshake,
            begin_handshake_request_cookie: None,
            client_identity: None,
            requested_endpoint: None,
            server_cookie: None,
            endpoint_challenge: None,
            send_response_request_cookie: None,
            client_auth_key: None,
            challenge_response: None,
            proof_built: false,
            signatures_checked: false,
            endpoint_private_key: None,
            endpoint_service_id: None,
            client_allowed: false,
            client_requested_endpoint_valid: false,
            client_proof_signature_valid: false,
            client_auth_signature_valid: false,
            challenge_response_valid: false,
        }
    }

    /// Whether every check of the handshake has passed.
    pub open spec fn succeeded(self) -> bool {
        &&& self.client_allowed
        &&& self.client_requested_endpoint_valid
        &&& self.client_proof_signature_valid
        &&& self.client_auth_signature_valid
        &&& self.challenge_response_valid
    }

    /// Whether the server takes a `begin_handshake` call now.
    pub open spec fn takes_begin_handshake(self) -> bool {
        &&& self.state is WaitingForBeginHandshake
        &&& self.begin_handshake_request_cookie is None
    }

    /// Whether the server takes a `send_response` call now.
    pub open spec fn takes_send_response(self) -> bool {
        &&& self.state is WaitingForSendResponse
        &&& self.send_response_request_cookie is None
        &&& self.client_identity is Some
        &&& self.requested_endpoint is Some
        &&& self.server_cookie is Some
    }

    /// The server after a `begin_handshake` call whose arguments were read
    /// as `read`: `Failure` unless the server waits for that call,
    /// `InvalidArg` for a client identity that is no service id,
    /// `BadVersion` for another version of the protocol.
    pub open spec fn after_begin_handshake_of(
        self,
        read: BeginHandshakeArguments,
        cookie: RequestCookie,
    ) -> Result<IdentityServerView, GoslingError> {
        if !self.takes_begin_handshake() {
            Err(GoslingError::Failure)
        } else if !is_service_id_text(read.client_identity) {
            Err(GoslingError::InvalidArg)
        } else if read.version != gosling_version() {
            Err(GoslingError::BadVersion)
        } else {
            Ok(
                IdentityServerView {
                    begin_handshake_request_cookie: Some(cookie),
                    client_identity: Some(read.client_identity),
                    requested_endpoint: Some(read.endpoint),
                    ..self
                },
            )
        }
    }

    /// The server after a `begin_handshake` call with these arguments.
    pub open spec fn after_begin_handshake(
        self,
        arguments: bson::Document,
        cookie: RequestCookie,
    ) -> Result<IdentityServerView, GoslingError> {
        match begin_handshake_arguments(arguments) {
            Some(read) => self.after_begin_handshake_of(read, cookie),
            None => Err(GoslingError::InvalidArg),
        }
    }

    /// The server after a `send_response` call whose arguments were read
    /// as `read`: `Failure` unless the server waits for that call.
    pub open spec fn after_send_response_of(
        self,
        read: SendResponseArguments,
        cookie: RequestCookie,
    ) -> Result<IdentityServerView, GoslingError> {
        if !self.takes_send_response() {
            Err(GoslingError::Failure)
        } else {
            Ok(
                IdentityServerView {
                    send_response_request_cookie: Some(cookie),
                    client_auth_key: Some(read.client_authorization_key),
                    challenge_response: Some(read.challenge_response),
                    proof_built: vstd::utf8::is_ascii_chars(self.requested_endpoint.unwrap()),
                    signatures_checked: false,
                    ..self
                },
            )
        }
    }

    /// The server after a `send_response` call with these arguments.
    pub open spec fn after_send_response(
        self,
        arguments: bson::Document,
        cookie: RequestCookie,
    ) -> Result<IdentityServerView, GoslingError> {
        match send_response_arguments(arguments) {
            Some(read) => self.after_send_response_of(read, cookie),
            None => Err(GoslingError::InvalidArg),
        }
    }

    /// Whether `check` asks for the signatures of `read` to be checked as
    /// they must be: the proof signature against the client proof of this
    /// handshake, under the client's service id; and the authorization
    /// signature under the key and the sign bit that came with it.
    pub open spec fn checks(self, read: SendResponseArguments, check: IdentitySignatureCheck) -> bool {
        &&& self.requested_endpoint is Some
        &&& self.client_identity is Some
        &&& self.server_cookie is Some
        &&& check.client_identity@ == self.client_identity.unwrap()
        &&& check.client_identity_proof_signature@ == read.client_identity_proof_signature
        &&& check.client_authorization_key@ == read.client_authorization_key
        &&& check.client_authorization_key_signbit == (if read.client_authorization_key_signbit {
            1u8
        } else {
            0u8
        })
        &&& check.client_authorization_signature@ == read.client_authorization_signature
        &&& if vstd::utf8::is_ascii_chars(self.requested_endpoint.unwrap()) {
            &&& check.client_proof matches Some(bytes)
            &&& bytes@ == client_proof(
                DomainSeparator::GoslingIdentity,
                self.requested_endpoint.unwrap(),
                self.client_identity.unwrap(),
                self.server_identity,
                read.client_cookie,
                self.server_cookie.unwrap(),
            )
        } else {
            check.client_proof is None
        }
    }

    /// The server after a call of the RPC session, or the error that the
    /// call is answered with. On an error the server is left as it was.
    pub open spec fn after_call(
        self,
        name: Seq<char>,
        version: i32,
        arguments: bson::Document,
        request_cookie: Option<RequestCookie>,
    ) -> Result<IdentityServerView, GoslingError> {
        match request_cookie {
            None => Err(GoslingError::RequestCookieRequired),
            Some(cookie) => if name == "begin_handshake"@ && version == 0 && self.takes_begin_handshake() {
                self.after_begin_handshake(arguments, cookie)
            } else if name == "send_response"@ && version == 0 && self.takes_send_response() {
                self.after_send_response(arguments, cookie)
            } else {
                Err(GoslingError::Failure)
            },
        }
    }

    /// What a call that is taken is answered with at once: nothing for
    /// `begin_handshake`; for `send_response` the signatures to check.
    pub open spec fn answers(
        self,
        name: Seq<char>,
        arguments: bson::Document,
        answer: IdentityServerExec,
    ) -> bool {
        if name == "begin_handshake"@ {
            answer is Deferred
        } else {
            &&& answer matches IdentityServerExec::Verify(check)
            &&& send_response_arguments(arguments) matches Some(read)
            &&& self.checks(read, check)
        }
    }

    /// Whether the server waits for the verdict on the signatures of a
    /// `send_response` call.
    pub open spec fn awaits_signature_verdict(self) -> bool {
        &&& self.state is WaitingForSendResponse
        &&& self.send_response_request_cookie is Some
        &&& !self.signatures_checked
    }

    /// The server after the driver has checked the signatures of the
    /// `send_response` call.
    pub open spec fn after_signature_verdict(
        self,
        proof_valid: bool,
        auth_valid: bool,
    ) -> Result<IdentityServerView, GoslingError> {
        if self.awaits_signature_verdict() {
            Ok(
                IdentityServerView {
                    client_proof_signature_valid: proof_valid && self.proof_built,
                    client_auth_signature_valid: auth_valid,
                    signatures_checked: true,
                    ..self
                },
            )
        } else {
            Err(GoslingError::Failure)
        }
    }

    /// The server after the application has answered the endpoint request,
    /// where `drawn` is the server cookie that was drawn for it.
    pub open spec fn after_send_challenge(
        self,
        client_allowed: bool,
        endpoint_valid: bool,
        endpoint_challenge: bson::Document,
        drawn: Option<Seq<u8>>,
    ) -> Result<IdentityServerView, Error> {
        if !(self.state is GettingChallenge) {
            Err(Error::IncorrectUsage)
        } else {
            match drawn {
                None => Err(Error::EntropyUnavailable),
                Some(cookie) => Ok(
                    IdentityServerView {
                        server_cookie: Some(cookie),
                        endpoint_challenge: Some(endpoint_challenge),
                        client_allowed,
                        client_requested_endpoint_valid: endpoint_valid,
                        state: IdentityServerState::ChallengeReady,
                        ..self
                    },
                ),
            }
        }
    }

    /// The server after the application has given its verdict on the
    /// client's answer to the challenge.
    pub open spec fn after_send_challenge_verification(
        self,
        challenge_response_valid: bool,
    ) -> Result<IdentityServerView, Error> {
        if self.state is GettingChallengeVerification {
            Ok(
                IdentityServerView {
                    challenge_response_valid,
                    state: IdentityServerState::ChallengeVerificationReady,
                    ..self
                },
            )
        } else {
            Err(Error::IncorrectUsage)
        }
    }

    /// Whether the server waits for the key of the endpoint that it is
    /// about to grant.
    pub open spec fn awaits_endpoint_key(self) -> bool {
        &&& self.state is ChallengeVerificationReady
        &&& self.succeeded()
        &&& self.endpoint_private_key is None
    }

    /// The server after the driver has generated the endpoint's key.
    pub open spec fn after_endpoint_key(
        self,
        private_key: Seq<u8>,
        service_id: Seq<char>,
    ) -> Result<IdentityServerView, Error> {
        if self.awaits_endpoint_key() {
            Ok(
                IdentityServerView {
                    endpoint_private_key: Some(private_key),
                    endpoint_service_id: Some(service_id),
                    ..self
                },
            )
        } else {
            Err(Error::IncorrectUsage)
        }
    }

    /// Whether the server has a reply to hand to the RPC session.
    pub open spec fn has_result(self) -> bool {
        ||| self.state is ChallengeReady && self.begin_handshake_request_cookie is Some && self.server_cookie
            is Some && self.endpoint_challenge is Some
        ||| self.state is ChallengeVerificationReady && self.send_response_request_cookie is Some
            && !self.awaits_endpoint_key()
    }

    /// The server after the RPC session has asked it for a reply.
    pub open spec fn after_next_result(self) -> IdentityServerView {
        if !self.has_result() {
            self
        } else if self.state is ChallengeReady {
            IdentityServerView {
                endpoint_challenge: None,
                state: IdentityServerState::WaitingForSendResponse,
                ..self
            }
        } else {
            IdentityServerView { state: IdentityServerState::ChallengeVerificationResponseSent, ..self }
        }
    }

    /// Whether `reply` is the document that answers `begin_handshake`:
    /// the server cookie and the challenge.
    pub open spec fn is_challenge_reply(self, reply: Value) -> bool {
        &&& reply@ matches Shape::Document(document)
        &&& self.server_cookie is Some
        &&& self.endpoint_challenge is Some
        &&& document_shapes(document) == no_entries().insert(
            "server_cookie"@,
            Shape::Binary(self.server_cookie.unwrap()),
        ).insert("endpoint_challenge"@, Shape::Document(self.endpoint_challenge.unwrap()))
    }

    /// What the server hands to the RPC session when it is asked for a
    /// reply.
    pub open spec fn hands_out(self, result: IdentityServerResult) -> bool {
        if self.awaits_endpoint_key() && self.send_response_request_cookie is Some {
            result is GenerateEndpointKey
        } else if !self.has_result() {
            result is Nothing
        } else if self.state is ChallengeReady {
            &&& result matches IdentityServerResult::Reply { cookie, result: Ok(reply) }
            &&& Some(cookie) == self.begin_handshake_request_cookie
            &&& self.is_challenge_reply(reply)
        } else if self.succeeded() {
            &&& result matches IdentityServerResult::Reply { cookie, result: Ok(reply) }
            &&& Some(cookie) == self.send_response_request_cookie
            &&& self.endpoint_service_id is Some
            &&& reply@ == Shape::Text(self.endpoint_service_id.unwrap())
        } else {
            &&& result matches IdentityServerResult::Reply { cookie, result: Err(error) }
            &&& Some(cookie) == self.send_response_request_cookie
            &&& error == GoslingError::Failure
        }
    }

    /// Whether a tick has an event for the application.
    pub open spec fn has_event(self) -> bool {
        ||| self.state is WaitingForBeginHandshake && self.client_identity is Some && self.requested_endpoint
            is Some
        ||| self.state is WaitingForSendResponse && self.signatures_checked && self.challenge_response is Some
        ||| self.state is ChallengeVerificationResponseSent && self.client_identity is Some
            && self.requested_endpoint is Some && self.client_auth_key is Some
    }

    /// The server after a tick.
    pub open spec fn after_update(self) -> IdentityServerView {
        if !self.has_event() {
            self
        } else if self.state is WaitingForBeginHandshake {
            IdentityServerView { state: IdentityServerState::GettingChallenge, ..self }
        } else if self.state is WaitingForSendResponse {
            IdentityServerView {
                challenge_response: None,
                state: IdentityServerState::GettingChallengeVerification,
                ..self
            }
        } else {
            IdentityServerView { state: IdentityServerState::HandshakeComplete, ..self }
        }
    }

    /// What a tick hands to the application.
    pub open spec fn announces(self, event: Option<IdentityServerEvent>) -> bool {
        if !self.has_event() {
            event is None
        } else if self.state is WaitingForBeginHandshake {
            &&& event matches Some(
                IdentityServerEvent::EndpointRequestReceived { client_service_id, requested_endpoint },
            )
            &&& Some(client_service_id@) == self.client_identity
            &&& Some(requested_endpoint@) == self.requested_endpoint
        } else if self.state is WaitingForSendResponse {
            &&& event matches Some(IdentityServerEvent::ChallengeResponseReceived { challenge_response })
            &&& Some(challenge_response) == self.challenge_response
        } else if self.endpoint_private_key is Some {
            &&& event matches Some(
                IdentityServerEvent::HandshakeCompleted {
                    endpoint_private_key,
                    endpoint_name,
                    client_service_id,
                    client_auth_public_key,
                },
            )
            &&& Some(endpoint_private_key@) == self.endpoint_private_key
            &&& Some(endpoint_name@) == self.requested_endpoint
            &&& Some(client_service_id@) == self.client_identity
            &&& Some(client_auth_public_key@) == self.client_auth_key
        } else {
            &&& event matches Some(
                IdentityServerEvent::HandshakeRejected {
                    client_allowed,
                    client_requested_endpoint_valid,
                    client_proof_signature_valid,
                    client_auth_signature_valid,
                    challenge_response_valid,
                },
            )
            &&& client_allowed == self.client_allowed
            &&& client_requested_endpoint_valid == self.client_requested_endpoint_valid
            &&& client_proof_signature_valid == self.client_proof_signature_valid
            &&& client_auth_signature_valid == self.client_auth_signature_valid
            &&& challenge_response_valid == self.challenge_response_valid
        }
    }
}


/// What `begin_handshake` was called with.
struct BeginHandshakeCall {
    version: String,
    client_identity: String,
    endpoint: String,
}

/// What `send_response` was called with.
struct SendResponseCall {
    client_cookie: [u8; 32],
    client_identity_proof_signature: Ed25519Signature,
    client_authorization_key: [u8; 32],
    client_authorization_key_signbit: bool,
    client_authorization_signature: Ed25519Signature,
    challenge_response: bson::Document,
}

fn read_begin_handshake(arguments: bson::Document) -> (read: Option<BeginHandshakeCall>)
    ensures
        read is Some <==> begin_handshake_arguments(arguments) is Some,
        read matches Some(call) ==> begin_handshake_arguments(arguments) == Some(
            (BeginHandshakeArguments {
                version: call.version@,
                client_identity: call.client_identity@,
                endpoint: call.endpoint@,
            }),
        ),
{
    proof {
        reveal_strlit("version");
        reveal_strlit("client_identity");
        reveal_strlit("endpoint");
        assert("version"@.len() == 7);
        assert("client_identity"@.len() == 15);
        assert("endpoint"@.len() == 8);
    }
    let mut arguments = arguments;
    let ghost given = arguments;
    let version = take(&mut arguments, "version");
    let client_identity = take(&mut arguments, "client_identity");
    let endpoint = take(&mut arguments, "endpoint");
    assert(option_shape(client_identity) == shape_at(given, "client_identity"@));
    assert(option_shape(endpoint) == shape_at(given, "endpoint"@));
    match (version, client_identity, endpoint) {
        (Some(Value::Text(version)), Some(Value::Text(client_identity)), Some(Value::Text(endpoint))) => Some(
            BeginHandshakeCall { version, client_identity, endpoint },
        ),
        _ => None,
    }
}

fn read_send_response(arguments: bson::Document) -> (read: Option<SendResponseCall>)
    ensures
        read is Some <==> send_response_arguments(arguments) is Some,
        read matches Some(call) ==> send_response_arguments(arguments) == Some(
            (SendResponseArguments {
                client_cookie: call.client_cookie@,
                client_identity_proof_signature: call.client_identity_proof_signature@,
                client_authorization_key: call.client_authorization_key@,
                client_authorization_key_signbit: call.client_authorization_key_signbit,
                client_authorization_signature: call.client_authorization_signature@,
                challenge_response: call.challenge_response,
            }),
        ),
{
    proof {
        reveal_strlit("client_cookie");
        reveal_strlit("client_identity_proof_signature");
        reveal_strlit("client_authorization_key");
        reveal_strlit("client_authorization_key_signbit");
        reveal_strlit("client_authorization_signature");
        reveal_strlit("challenge_response");
        assert("client_cookie"@.len() == 13);
        assert("client_identity_proof_signature"@.len() == 31);
        assert("client_authorization_key"@.len() == 24);
        assert("client_authorization_key_signbit"@.len() == 32);
        assert("client_authorization_signature"@.len() == 30);
        assert("challenge_response"@.len() == 18);
    }
    let mut arguments = arguments;
    let ghost given = arguments;
    let client_cookie = take(&mut arguments, "client_cookie");
    let proof_signature = take(&mut arguments, "client_identity_proof_signature");
    assert(option_shape(proof_signature) == shape_at(given, "client_identity_proof_signature"@));
    let key = take(&mut arguments, "client_authorization_key");
    assert(option_shape(key) == shape_at(given, "client_authorization_key"@));
    let signbit = take(&mut arguments, "client_authorization_key_signbit");
    assert(option_shape(signbit) == shape_at(given, "client_authorization_key_signbit"@));
    let auth_signature = take(&mut arguments, "client_authorization_signature");
    assert(option_shape(auth_signature) == shape_at(given, "client_authorization_signature"@));
    let challenge_response = take(&mut arguments, "challenge_response");
    assert(option_shape(challenge_response) == shape_at(given, "challenge_response"@));
    match (client_cookie, proof_signature, key, signbit, auth_signature, challenge_response) {
        (
            Some(Value::Binary(client_cookie)),
            Some(Value::Binary(proof_signature)),
            Some(Value::Binary(key)),
            Some(Value::Boolean(signbit)),
            Some(Value::Binary(auth_signature)),
            Some(Value::Document(challenge_response)),
        ) => {
            match (
                array_of_32(&client_cookie),
                array_of_64(&proof_signature),
                array_of_32(&key),
                array_of_64(&auth_signature),
            ) {
                (Some(client_cookie), Some(proof_signature), Some(key), Some(auth_signature)) => Some(
                    SendResponseCall {
                        client_cookie,
                        client_identity_proof_signature: proof_signature,
                        client_authorization_key: key,
                        client_authorization_key_signbit: signbit,
                        client_authorization_signature: auth_signature,
                        challenge_response,
                    },
                ),
                _ => None,
            }
        },
        _ => None,
    }
}

impl IdentityServer {
    /// A server for one connection to the identity service
    /// `server_identity`.
    pub fn new(server_identity: GoslingV3OnionServiceId) -> (server: IdentityServer)
        ensures
            server@ == IdentityServerView::initial(server_identity@),
    {
        IdentityServer {
            server_identity,
            state: IdentityServerState::WaitingForBeginHandshake,
            begin_handshake_request_cookie: None,
            client_identity: None,
            requested_endpoint: None,
            server_cookie: None,
            endpoint_challenge: None,
            send_response_request_cookie: None,
            client_auth_key: None,
            challenge_response: None,
            proof_built: false,
            signatures_checked: false,
            endpoint: None,
            client_allowed: false,
            client_requested_endpoint_valid: false,
            client_proof_signature_valid: false,
            client_auth_signature_valid: false,
            challenge_response_valid: false,
        }
    }

    /// Where the server stands.
    pub fn state(&self) -> (state: IdentityServerState)
        ensures
            state == self@.state,
    {
        self.state
    }

    /// The namespace of the functions that the server takes calls of.
    pub fn namespace(&self) -> (namespace: &'static str)
        ensures
            namespace@ == "gosling_identity"@,
    {
        "gosling_identity"
    }

    fn takes_send_response(&self) -> (takes: bool)
        ensures
            takes == self@.takes_send_response(),
    {
        let waiting = match self.state {
            IdentityServerState::WaitingForSendResponse => true,
            _ => false,
        };
        waiting && self.send_response_request_cookie.is_none() && self.client_identity.is_some()
            && self.requested_endpoint.is_some() && self.server_cookie.is_some()
    }

    fn takes_begin_handshake(&self) -> (takes: bool)
        ensures
            takes == self@.takes_begin_handshake(),
    {
        let waiting = match self.state {
            IdentityServerState::WaitingForBeginHandshake => true,
            _ => false,
        };
        waiting && self.begin_handshake_request_cookie.is_none()
    }

    /// Takes a `begin_handshake` call with these arguments, which came
    /// under `request_cookie`. Answers `Failure` unless the server waits
    /// for that call, `InvalidArg` where `client_identity` is no service
    /// id, and `BadVersion` where `version` is not the version of the
    /// protocol; the server is then left as it was.
    pub fn handle_begin_handshake(
        &mut self,
        version: String,
        client_identity: String,
        endpoint_name: String,
        request_cookie: RequestCookie,
    ) -> (result: Result<(), GoslingError>)
        ensures
            match old(self)@.after_begin_handshake_of(
                (BeginHandshakeArguments {
                    version: version@,
                    client_identity: client_identity@,
                    endpoint: endpoint_name@,
                }),
                request_cookie,
            ) {
                Ok(next) => final(self)@ == next && result is Ok,
                Err(error) => final(self)@ == old(self)@ && failed_with(result, error),
            },
    {
        if !self.takes_begin_handshake() {
            return Err(GoslingError::Failure);
        }
        let client_identity = match GoslingV3OnionServiceId::from_string(client_identity.as_str()) {
            Ok(client_identity) => client_identity,
            Err(_) => {
                return Err(GoslingError::InvalidArg);
            },
        };
        if !same_text(version.as_str(), version_text()) {
            return Err(GoslingError::BadVersion);
        }
        self.begin_handshake_request_cookie = Some(request_cookie);
        self.client_identity = Some(client_identity);
        self.requested_endpoint = Some(endpoint_name);
        Ok(())
    }

    /// Takes a `send_response` call with these arguments, which came
    /// under `request_cookie`, and gives the signatures to check. Answers
    /// `Failure` unless the server waits for that call; the server is
    /// then left as it was.
    pub fn handle_send_response(
        &mut self,
        client_cookie: ClientCookie,
        client_identity_proof_signature: Ed25519Signature,
        client_authorization_key: GoslingX25519PublicKey,
        client_authorization_key_signbit: bool,
        client_authorization_signature: Ed25519Signature,
        challenge_response: bson::Document,
        request_cookie: RequestCookie,
    ) -> (result: Result<IdentitySignatureCheck, GoslingError>)
        ensures
            ({
                let read = SendResponseArguments {
                    client_cookie: client_cookie@,
                    client_identity_proof_signature: client_identity_proof_signature@,
                    client_authorization_key: client_authorization_key@,
                    client_authorization_key_signbit,
                    client_authorization_signature: client_authorization_signature@,
                    challenge_response,
                };
                match old(self)@.after_send_response_of(read, request_cookie) {
                    Ok(next) => {
                        &&& final(self)@ == next
                        &&& result matches Ok(check)
                        &&& old(self)@.checks(read, check)
                    },
                    Err(error) => final(self)@ == old(self)@ && failed_with(result, error),
                }
            }),
    {
        if !self.takes_send_response() {
            return Err(GoslingError::Failure);
        }
        let (client_identity, built) = match (&self.client_identity, &self.requested_endpoint, &self.server_cookie) {
            (Some(client_identity), Some(requested_endpoint), Some(server_cookie)) => {
                let built = build_client_proof(
                    DomainSeparator::GoslingIdentity,
                    requested_endpoint.as_str(),
                    client_identity,
                    &self.server_identity,
                    &client_cookie,
                    server_cookie,
                );
                (client_identity.clone(), built)
            },
            _ => {
                return Err(GoslingError::Failure);
            },
        };
        let client_proof = match built {
            Ok(bytes) => Some(bytes),
            Err(_) => None,
        };
        self.send_response_request_cookie = Some(request_cookie);
        self.client_auth_key = Some(client_authorization_key);
        self.challenge_response = Some(challenge_response);
        self.proof_built = client_proof.is_some();
        self.signatures_checked = false;
        Ok(
            IdentitySignatureCheck {
                client_proof,
                client_identity,
                client_identity_proof_signature,
                client_authorization_key,
                client_authorization_key_signbit: if client_authorization_key_signbit {
                    1
                } else {
                    0
                },
                client_authorization_signature,
            },
        )
    }

    /// Takes a call of the RPC session. `begin_handshake` is taken while
    /// the server waits for it and `send_response` once the challenge has
    /// gone out, both in version 0 and with a request cookie. A call that
    /// is taken is answered later; a call that is refused is answered with
    /// the error at once, and leaves the server as it was.
    pub fn exec_function(
        &mut self,
        name: &str,
        version: i32,
        arguments: bson::Document,
        request_cookie: Option<RequestCookie>,
    ) -> (result: Result<IdentityServerExec, GoslingError>)
        ensures
            match old(self)@.after_call(name@, version, arguments, request_cookie) {
                Ok(next) => {
                    &&& final(self)@ == next
                    &&& result matches Ok(answer)
                    &&& old(self)@.answers(name@, arguments, answer)
                },
                Err(error) => final(self)@ == old(self)@ && failed_with(result, error),
            },
    {
        let cookie = match request_cookie {
            Some(cookie) => cookie,
            None => {
                return Err(GoslingError::RequestCookieRequired);
            },
        };
        if same_text(name, "begin_handshake") && version == 0 && self.takes_begin_handshake() {
            let call = match read_begin_handshake(arguments) {
                Some(call) => call,
                None => {
                    return Err(GoslingError::InvalidArg);
                },
            };
            match self.handle_begin_handshake(call.version, call.client_identity, call.endpoint, cookie) {
                Ok(()) => Ok(IdentityServerExec::Deferred),
                Err(error) => Err(error),
            }
        } else if same_text(name, "send_response") && version == 0 && self.takes_send_response() {
            proof {
                reveal_strlit("send_response");
                reveal_strlit("begin_handshake");
                assert("send_response"@.len() != "begin_handshake"@.len());
            }
            let call = match read_send_response(arguments) {
                Some(call) => call,
                None => {
                    return Err(GoslingError::InvalidArg);
                },
            };
            match self.handle_send_response(
                call.client_cookie,
                call.client_identity_proof_signature,
                GoslingX25519PublicKey::from_raw(&call.client_authorization_key),
                call.client_authorization_key_signbit,
                call.client_authorization_signature,
                call.challenge_response,
                cookie,
            ) {
                Ok(check) => Ok(IdentityServerExec::Verify(check)),
                Err(error) => Err(error),
            }
        } else {
            Err(GoslingError::Failure)
        }
    }

    /// Takes the driver's verdict on the two signatures of the
    /// `send_response` call: whether the client proof was signed by the
    /// key behind the client's service id, and whether the client's
    /// service id was signed by the client authorization key. Answers
    /// `Failure` unless the server waits for that verdict.
    pub fn handle_signature_verification(
        &mut self,
        proof_signature_valid: bool,
        auth_signature_valid: bool,
    ) -> (result: Result<(), GoslingError>)
        ensures
            match old(self)@.after_signature_verdict(proof_signature_valid, auth_signature_valid) {
                Ok(next) => final(self)@ == next && result is Ok,
                Err(error) => final(self)@ == old(self)@ && failed_with(result, error),
            },
    {
        let waiting = match self.state {
            IdentityServerState::WaitingForSendResponse => true,
            _ => false,
        };
        if waiting && self.send_response_request_cookie.is_some() && !self.signatures_checked {
            self.client_proof_signature_valid = proof_signature_valid && self.proof_built;
            self.client_auth_signature_valid = auth_signature_valid;
            self.signatures_checked = true;
            Ok(())
        } else {
            Err(GoslingError::Failure)
        }
    }

    /// Takes the application's answer to an endpoint request, with the
    /// server cookie `drawn` for the handshake. Fails with
    /// `IncorrectUsage` unless the server waits for that answer, and with
    /// `EntropyUnavailable` where no cookie could be drawn.
    pub fn send_challenge_with_cookie(
        &mut self,
        client_allowed: bool,
        endpoint_valid: bool,
        endpoint_challenge: bson::Document,
        drawn: Option<ServerCookie>,
    ) -> (result: Result<(), Error>)
        ensures
            match old(self)@.after_send_challenge(
                client_allowed,
                endpoint_valid,
                endpoint_challenge,
                cookie_bytes(drawn),
            ) {
                Ok(next) => final(self)@ == next && result is Ok,
                Err(error) => final(self)@ == old(self)@ && failed_with(result, error),
            },
    {
        match self.state {
            IdentityServerState::GettingChallenge => {},
            _ => {
                return Err(Error::IncorrectUsage);
            },
        }
        match drawn {
            None => Err(Error::EntropyUnavailable),
            Some(server_cookie) => {
                self.server_cookie = Some(server_cookie);
                self.endpoint_challenge = Some(endpoint_challenge);
                self.client_allowed = client_allowed;
                self.client_requested_endpoint_valid = endpoint_valid;
                self.state = IdentityServerState::ChallengeReady;
                Ok(())
            },
        }
    }

    /// Takes the application's answer to an endpoint request: whether the
    /// client is allowed, whether the endpoint it asked for is one that is
    /// served, and the challenge to send. The server cookie, of 32 bytes,
    /// is drawn from the operating system. Fails with `IncorrectUsage` unless the
    /// server waits for that answer; a second answer is therefore refused.
    pub fn send_challenge(
        &mut self,
        client_allowed: bool,
        endpoint_valid: bool,
        endpoint_challenge: bson::Document,
    ) -> (result: Result<(), Error>)
        ensures
            !(old(self)@.state is GettingChallenge) ==> final(self)@ == old(self)@ && result == Err::<(), Error>(
                Error::IncorrectUsage,
            ),
            old(self)@.state is GettingChallenge ==> exists|drawn: Option<Seq<u8>>|
                is_cookie_draw(drawn) && (match #[trigger] old(self)@.after_send_challenge(
                    client_allowed,
                    endpoint_valid,
                    endpoint_challenge,
                    drawn,
                ) {
                    Ok(next) => final(self)@ == next && result is Ok,
                    Err(error) => final(self)@ == old(self)@ && failed_with(result, error),
                }),
    {
        match self.state {
            IdentityServerState::GettingChallenge => {},
            _ => {
                return Err(Error::IncorrectUsage);
            },
        }
        let drawn = draw_cookie();
        proof {
            lemma_cookie_draw(drawn);
        }
        let result = self.send_challenge_with_cookie(client_allowed, endpoint_valid, endpoint_challenge, drawn);
        assert(match old(self)@.after_send_challenge(
            client_allowed,
            endpoint_valid,
            endpoint_challenge,
            cookie_bytes(drawn),
        ) {
            Ok(next) => self@ == next && result is Ok,
            Err(error) => self@ == old(self)@ && failed_with(result, error),
        });
        result
    }

    /// Takes the application's verdict on the client's answer to the
    /// challenge. Fails with `IncorrectUsage` unless the server waits for
    /// that verdict.
    pub fn send_challenge_verification(
        &mut self,
        challenge_response_valid: bool,
    ) -> (result: Result<(), Error>)
        ensures
            match old(self)@.after_send_challenge_verification(challenge_response_valid) {
                Ok(next) => final(self)@ == next && result is Ok,
                Err(error) => final(self)@ == old(self)@ && failed_with(result, error),
            },
    {
        match self.state {
            IdentityServerState::GettingChallengeVerification => {
                self.challenge_response_valid = challenge_response_valid;
                self.state = IdentityServerState::ChallengeVerificationReady;
                Ok(())
            },
            _ => Err(Error::IncorrectUsage),
        }
    }

    fn succeeded(&self) -> (succeeded: bool)
        ensures
            succeeded == self@.succeeded(),
    {
        self.client_allowed && self.client_requested_endpoint_valid && self.client_proof_signature_valid
            && self.client_auth_signature_valid && self.challenge_response_valid
    }

    fn awaits_endpoint_key(&self) -> (awaits: bool)
        ensures
            awaits == self@.awaits_endpoint_key(),
    {
        let ready = match self.state {
            IdentityServerState::ChallengeVerificationReady => true,
            _ => false,
        };
        ready && self.succeeded() && self.endpoint.is_none()
    }

    /// Takes the key of the endpoint that the server is about to grant:
    /// its private half, and the service id that the driver derived from
    /// it. Fails with `IncorrectUsage` unless the server asked for it.
    pub fn handle_endpoint_key(
        &mut self,
        endpoint_private_key: GoslingEd25519PrivateKey,
        endpoint_service_id: GoslingV3OnionServiceId,
    ) -> (result: Result<(), Error>)
        ensures
            match old(self)@.after_endpoint_key(endpoint_private_key@, endpoint_service_id@) {
                Ok(next) => final(self)@ == next && result is Ok,
                Err(error) => final(self)@ == old(self)@ && failed_with(result, error),
            },
    {
        if self.awaits_endpoint_key() {
            self.endpoint = Some(EndpointKey { private_key: endpoint_private_key, service_id: endpoint_service_id });
            Ok(())
        } else {
            Err(Error::IncorrectUsage)
        }
    }

    fn challenge_result(&mut self) -> (result: IdentityServerResult)
        requires
            old(self)@.has_result(),
            old(self)@.state is ChallengeReady,
        ensures
            final(self)@ == old(self)@.after_next_result(),
            old(self)@.hands_out(result),
    {
        let cookie = match self.begin_handshake_request_cookie {
            Some(cookie) => cookie,
            None => {
                return IdentityServerResult::Nothing;
            },
        };
        let server_cookie = match self.server_cookie {
            Some(server_cookie) => server_cookie,
            None => {
                return IdentityServerResult::Nothing;
            },
        };
        let endpoint_challenge = match self.endpoint_challenge.take() {
            Some(endpoint_challenge) => endpoint_challenge,
            None => {
                return IdentityServerResult::Nothing;
            },
        };
        let mut reply = new_document();
        put(&mut reply, "server_cookie", Value::Binary(vec_of_32(&server_cookie)));
        put(&mut reply, "endpoint_challenge", Value::Document(endpoint_challenge));
        self.state = IdentityServerState::WaitingForSendResponse;
        IdentityServerResult::Reply { cookie, result: Ok(Value::Document(reply)) }
    }

    /// What the server has for the RPC session to send, if anything: the
    /// challenge, once the application has supplied it; and the grant or
    /// the refusal, once the application has given its verdict. Before
    /// the grant the server asks for the endpoint's key.
    pub fn next_result(&mut self) -> (result: IdentityServerResult)
        ensures
            final(self)@ == old(self)@.after_next_result(),
            old(self)@.hands_out(result),
    {
        match self.state {
            IdentityServerState::ChallengeReady => {
                if self.begin_handshake_request_cookie.is_some() && self.server_cookie.is_some()
                    && self.endpoint_challenge.is_some() {
                    self.challenge_result()
                } else {
                    IdentityServerResult::Nothing
                }
            },
            IdentityServerState::ChallengeVerificationReady => {
                let cookie = match self.send_response_request_cookie {
                    Some(cookie) => cookie,
                    None => {
                        return IdentityServerResult::Nothing;
                    },
                };
                if !self.succeeded() {
                    self.state = IdentityServerState::ChallengeVerificationResponseSent;
                    return IdentityServerResult::Reply { cookie, result: Err(GoslingError::Failure) };
                }
                match &self.endpoint {
                    Some(endpoint) => {
                        let text = endpoint.service_id.to_string();
                        self.state = IdentityServerState::ChallengeVerificationResponseSent;
                        IdentityServerResult::Reply { cookie, result: Ok(Value::Text(text)) }
                    },
                    None => IdentityServerResult::GenerateEndpointKey,
                }
            },
            _ => IdentityServerResult::Nothing,
        }
    }

    /// A tick: hands out the event that the calls and answers since the
    /// last tick have led to, if there is one.
    pub fn update(&mut self) -> (event: Option<IdentityServerEvent>)
        ensures
            final(self)@ == old(self)@.after_update(),
            old(self)@.announces(event),
    {
        match self.state {
            IdentityServerState::WaitingForBeginHandshake => {
                match (&self.client_identity, &self.requested_endpoint) {
                    (Some(client_identity), Some(requested_endpoint)) => {
                        let event = IdentityServerEvent::EndpointRequestReceived {
                            client_service_id: client_identity.clone(),
                            requested_endpoint: requested_endpoint.clone(),
                        };
                        self.state = IdentityServerState::GettingChallenge;
                        Some(event)
                    },
                    _ => None,
                }
            },
            IdentityServerState::WaitingForSendResponse => {
                if !self.signatures_checked {
                    return None;
                }
                match self.challenge_response.take() {
                    Some(challenge_response) => {
                        self.state = IdentityServerState::GettingChallengeVerification;
                        Some(IdentityServerEvent::ChallengeResponseReceived { challenge_response })
                    },
                    None => None,
                }
            },
            IdentityServerState::ChallengeVerificationResponseSent => {
                match (&self.client_identity, &self.requested_endpoint, &self.client_auth_key) {
                    (Some(client_identity), Some(requested_endpoint), Some(client_auth_key)) => {
                        let event = match &self.endpoint {
                            Some(endpoint) => IdentityServerEvent::HandshakeCompleted {
                                endpoint_private_key: endpoint.private_key,
                                endpoint_name: requested_endpoint.clone(),
                                client_service_id: client_identity.clone(),
                                client_auth_public_key: *client_auth_key,
                            },
                            None => IdentityServerEvent::HandshakeRejected {
                                client_allowed: self.client_allowed,
                                client_requested_endpoint_valid: self.client_requested_endpoint_valid,
                                client_proof_signature_valid: self.client_proof_signature_valid,
                                client_auth_signature_valid: self.client_auth_signature_valid,
                                challenge_response_valid: self.challenge_response_valid,
                            },
                        };
                        self.state = IdentityServerState::HandshakeComplete;
                        Some(event)
                    },
                    _ => None,
                }
            },
            _ => None,
        }
    }
}

} // verus!
