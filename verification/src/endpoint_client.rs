//! The connecting side of the endpoint handshake: a peer opens a channel
//! on an endpoint that it was granted, and proves its identity again.

use vstd::prelude::*;
use vstd::string::*;
use crate::client_proof::{
    build_client_proof, client_proof, ClientCookie, DomainSeparator, ServerCookie,
};
use crate::document::{
    document_shapes, is_empty, new_document, no_entries, put, shape_at, take, Shape, Value,
};
use crate::error::Error;
use crate::identity_client::{cookie_bytes, is_cookie_draw, lemma_cookie_draw};
use crate::keys::{array_of_32, draw_cookie, vec_of_32, vec_of_64, Ed25519Signature};
use crate::rpc::{gosling_version, version_text, Call, RequestCookie, Response};
use crate::service_id::GoslingV3OnionServiceId;

verus! {

/// What an endpoint client tells the application.
#[derive(Debug)]
pub enum EndpointClientEvent {
    /// The channel is open.
    HandshakeCompleted,
}

/// Where an endpoint client stands in its handshake.
#[derive(Clone, Copy, Debug, PartialEq, Eq, Structural)]
pub enum EndpointClientState {
    BeginHandshake,
    WaitingForServerCookie,
    WaitingForProofVerification,
    HandshakeComplete,
}

/// What the driver of an endpoint client observed.
#[derive(Debug)]
pub enum EndpointClientInput {
    /// Nothing: the driver asks what the handshake needs.
    Tick,
    /// The call that the handshake asked for was handed to the RPC session
    /// under this cookie.
    CallIssued { cookie: RequestCookie },
    /// The RPC session has no response.
    NoResponse,
    /// The RPC session has this response.
    Response(Response),
    /// The client proof was signed with the client's identity key.
    Signed { client_identity_proof_signature: Ed25519Signature },
    /// The RPC session failed.
    TransportFailed,
}

/// What an endpoint client asks of its driver.
#[derive(Debug)]
pub enum EndpointClientOutput {
    /// Nothing, until the next tick.
    Idle,
    /// Hand this call to the RPC session, and come back with `CallIssued`.
    Call(Call),
    /// Ask the RPC session for its next response, and come back with
    /// `Response` or `NoResponse`.
    PollResponse,
    /// Sign this client proof with the client's identity key, and come
    /// back with `Signed`.
    Sign { client_proof: Vec<u8> },
    /// Hand this event to the application.
    Event(EndpointClientEvent),
}

/// An endpoint client: the state of one outbound endpoint handshake.
pub struct EndpointClient {
    server_service_id: GoslingV3OnionServiceId,
    requested_channel: String,
    client_service_id: GoslingV3OnionServiceId,
    state: EndpointClientState,
    begin_handshake_request_cookie: Option<RequestCookie>,
    cookies: Option<(ServerCookie, ClientCookie)>,
    call_handed_out: bool,
    send_response_request_cookie: Option<RequestCookie>,
}

/// An endpoint client as the contracts speak of it.
pub struct EndpointClientView {
    pub server_service_id: Seq<char>,
    pub requested_channel: Seq<char>,
    pub client_service_id: Seq<char>,
    pub state: EndpointClientState,
    pub begin_handshake_request_cookie: Option<RequestCookie>,
    pub server_cookie: Option<Seq<u8>>,
    pub client_cookie: Option<Seq<u8>>,
    pub call_handed_out: bool,
    pub send_response_request_cookie: Option<RequestCookie>,
}

impl View for EndpointClient {
    type V = EndpointClientView;

    closed spec fn view(&self) -> EndpointClientView {
        EndpointClientView {
            server_service_id: self.server_service_id@,
            requested_channel: self.requested_channel@,
            client_service_id: self.client_service_id@,
            state: self.state,
            begin_handshake_request_cookie: self.begin_handshake_request_cookie,
            server_cookie: match self.cookies {
                Some(cookies) => Some(cookies.0@),
                None => None,
            },
            client_cookie: match self.cookies {
                Some(cookies) => Some(cookies.1@),
                None => None,
            },
            call_handed_out: self.call_handed_out,
            send_response_request_cookie: self.send_response_request_cookie,
        }
    }
}

/// What the reply to `begin_handshake` holds, if it is well formed: a
/// document with a server cookie of 32 bytes.
pub open spec fn server_cookie_reply(result: Value) -> Option<Seq<u8>> {
    match result@ {
        Shape::Document(reply) => match shape_at(reply, "server_cookie"@) {
            Some(Shape::Binary(cookie)) => if cookie.len() == 32 {
                Some(cookie)
            } else {
                None
            },
            _ => None,
        },
        _ => None,
    }
}

/// Whether `result` is the reply that grants the channel: a document
/// without entries.
pub open spec fn is_channel_grant(result: Value) -> bool {
    result@ matches Shape::Document(reply) && document_shapes(reply) == no_entries()
}

/// Whether `call` is the `begin_handshake` call of the endpoint handshake
/// for this channel.
pub open spec fn is_endpoint_begin_handshake(call: Call, channel: Seq<char>) -> bool {
    &&& call.namespace@ == "gosling_endpoint"@
    &&& call.function@ == "begin_handshake"@
    &&& call.version == 0
    &&& document_shapes(call.arguments) == no_entries().insert(
        "version"@,
        Shape::Text(gosling_version()),
    ).insert("channel"@, Shape::Text(channel))
}

/// Whether `call` is the `send_response` call of the endpoint handshake
/// that carries this cookie, this identity and this signature.
pub open spec fn is_endpoint_send_response(
    call: Call,
    client_cookie: Seq<u8>,
    client_identity: Seq<char>,
    signature: Seq<u8>,
) -> bool {
    &&& call.namespace@ == "gosling_endpoint"@
    &&& call.function@ == "send_response"@
    &&& call.version == 0
    &&& document_shapes(call.arguments) == no_entries().insert(
        "client_cookie"@,
        Shape::Binary(client_cookie),
    ).insert("client_identity"@, Shape::Text(client_identity)).insert(
        "client_identity_proof_signature"@,
        Shape::Binary(signature),
    )
}

impl EndpointClientView {
    /// The client before its first step.
    pub open spec fn initial(
        server_service_id: Seq<char>,
        requested_channel: Seq<char>,
        client_service_id: Seq<char>,
    ) -> EndpointClientView {
        EndpointClientView {
            server_service_id,
            requested_channel,
            client_service_id,
            state: EndpointClientState::BeginHandshake,
            begin_handshake_request_cookie: None,
            server_cookie: None,
            client_cookie: None,
            call_handed_out: false,
            send_response_request_cookie: None,
        }
    }

    /// The cookie of the request whose response the client waits for.
    pub open spec fn awaited_cookie(self) -> Option<RequestCookie> {
        match self.state {
            EndpointClientState::WaitingForServerCookie => if self.server_cookie is None {
                self.begin_handshake_request_cookie
            } else {
                None
            },
            EndpointClientState::WaitingForProofVerification => self.send_response_request_cookie,
            _ => None,
        }
    }

    /// Whether this step draws a fresh client cookie: the step that takes
    /// a reply while the client waits for the server's cookie.
    pub open spec fn draws_cookie(self, input: EndpointClientInput) -> bool {
        &&& input matches EndpointClientInput::Response(Response::Success { .. })
        &&& self.state is WaitingForServerCookie
        &&& self.server_cookie is None
    }

    /// The client after a tick.
    pub open spec fn after_tick(self) -> Result<EndpointClientView, Error> {
        if self.state is BeginHandshake && !vstd::utf8::is_ascii_chars(self.requested_channel) {
            Err(Error::BadArgument)
        } else if self.state is WaitingForServerCookie && self.server_cookie is Some && !self.call_handed_out
            && !vstd::utf8::is_ascii_chars(self.requested_channel) {
            Err(Error::BadArgument)
        } else {
            Ok(self)
        }
    }

    /// The client after the call it asked for was issued under `cookie`.
    pub open spec fn after_call_issued(self, cookie: RequestCookie) -> Result<EndpointClientView, Error> {
        match self.state {
            EndpointClientState::BeginHandshake => Ok(
                EndpointClientView {
                    begin_handshake_request_cookie: Some(cookie),
                    state: EndpointClientState::WaitingForServerCookie,
                    ..self
                },
            ),
            EndpointClientState::WaitingForServerCookie => if self.call_handed_out {
                Ok(
                    EndpointClientView {
                        send_response_request_cookie: Some(cookie),
                        state: EndpointClientState::WaitingForProofVerification,
                        ..self
                    },
                )
            } else {
                Err(Error::InvalidState)
            },
            _ => Err(Error::InvalidState),
        }
    }

    /// The client after a response of the RPC session, where `drawn` is
    /// the cookie that was drawn for it.
    pub open spec fn after_response(
        self,
        response: Response,
        drawn: Option<Seq<u8>>,
    ) -> Result<EndpointClientView, Error> {
        if self.awaited_cookie() != Some(response.spec_cookie()) {
            Err(Error::InvalidState)
        } else {
            match response {
                Response::Pending { .. } => Ok(self),
                Response::Error { error_code, .. } => Err(Error::RpcRemote(error_code)),
                Response::Success { result, .. } => if self.state is WaitingForServerCookie {
                    match server_cookie_reply(result) {
                        None => Err(Error::BadArgument),
                        Some(server_cookie) => if !vstd::utf8::is_ascii_chars(self.requested_channel) {
                            Err(Error::BadArgument)
                        } else {
                            match drawn {
                                None => Err(Error::EntropyUnavailable),
                                Some(client_cookie) => Ok(
                                    EndpointClientView {
                                        server_cookie: Some(server_cookie),
                                        client_cookie: Some(client_cookie),
                                        ..self
                                    },
                                ),
                            }
                        },
                    }
                } else if is_channel_grant(result) {
                    Ok(EndpointClientView { state: EndpointClientState::HandshakeComplete, ..self })
                } else {
                    Err(Error::BadArgument)
                },
            }
        }
    }

    /// The client after the driver has signed the client proof.
    pub open spec fn after_signed(self) -> Result<EndpointClientView, Error> {
        if self.state is WaitingForServerCookie && self.server_cookie is Some && self.client_cookie is Some
            && !self.call_handed_out {
            Ok(EndpointClientView { call_handed_out: true, ..self })
        } else {
            Err(Error::InvalidState)
        }
    }

    /// The client after one step, or the error that ends the handshake.
    /// On an error the client is left as it was.
    pub open spec fn next(
        self,
        input: EndpointClientInput,
        drawn: Option<Seq<u8>>,
    ) -> Result<EndpointClientView, Error> {
        if self.state is HandshakeComplete {
            Err(Error::InvalidState)
        } else {
            match input {
                EndpointClientInput::Tick => self.after_tick(),
                EndpointClientInput::CallIssued { cookie } => self.after_call_issued(cookie),
                EndpointClientInput::NoResponse => if self.awaited_cookie() is Some {
                    Ok(self)
                } else {
                    Err(Error::InvalidState)
                },
                EndpointClientInput::Response(response) => self.after_response(response, drawn),
                EndpointClientInput::Signed { .. } => self.after_signed(),
                EndpointClientInput::TransportFailed => Err(Error::RpcTransport),
            }
        }
    }

    /// Whether `output` asks to have the client proof of this handshake
    /// signed.
    pub open spec fn asks_signature(self, output: EndpointClientOutput) -> bool {
        &&& output matches EndpointClientOutput::Sign { client_proof: bytes }
        &&& self.client_cookie is Some
        &&& self.server_cookie is Some
        &&& bytes@ == client_proof(
            DomainSeparator::GoslingEndpoint,
            self.requested_channel,
            self.client_service_id,
            self.server_service_id,
            self.client_cookie.unwrap(),
            self.server_cookie.unwrap(),
        )
    }

    /// What the client asks of its driver at a tick.
    pub open spec fn asks(self, output: EndpointClientOutput) -> bool {
        match self.state {
            EndpointClientState::BeginHandshake => output matches EndpointClientOutput::Call(call)
                && is_endpoint_begin_handshake(call, self.requested_channel),
            EndpointClientState::WaitingForServerCookie => if self.server_cookie is None {
                output is PollResponse
            } else if self.call_handed_out {
                output is Idle
            } else {
                self.asks_signature(output)
            },
            EndpointClientState::WaitingForProofVerification => output is PollResponse,
            EndpointClientState::HandshakeComplete => false,
        }
    }

    /// What a step that succeeds hands to the driver. `self` is the client
    /// before the step and `next` the client after it.
    pub open spec fn emits(
        self,
        input: EndpointClientInput,
        next: EndpointClientView,
        output: EndpointClientOutput,
    ) -> bool {
        match input {
            EndpointClientInput::Tick => self.asks(output),
            EndpointClientInput::CallIssued { .. } => output is Idle,
            EndpointClientInput::NoResponse => output is Idle,
            EndpointClientInput::Response(response) => match response {
                Response::Success { .. } => if self.state is WaitingForServerCookie {
                    next.asks_signature(output)
                } else {
                    output matches EndpointClientOutput::Event(EndpointClientEvent::HandshakeCompleted)
                },
                _ => output is Idle,
            },
            EndpointClientInput::Signed { client_identity_proof_signature } => {
                &&& output matches EndpointClientOutput::Call(call)
                &&& self.client_cookie is Some
                &&& is_endpoint_send_response(
                    call,
                    self.client_cookie.unwrap(),
                    self.client_service_id,
                    client_identity_proof_signature@,
                )
            },
            EndpointClientInput::TransportFailed => false,
        }
    }

    /// What holds of a step: a success leaves the client in the state that
    /// `next` gives and hands out what `emits` describes; a failure leaves
    /// the client as it was and hands out the error of `next`.
    pub open spec fn step(
        self,
        input: EndpointClientInput,
        drawn: Option<Seq<u8>>,
        after: EndpointClientView,
        result: Result<EndpointClientOutput, Error>,
    ) -> bool {
        match self.next(input, drawn) {
            Ok(next) => {
                &&& after == next
                &&& result matches Ok(output)
                &&& self.emits(input, next, output)
            },
            Err(error) => {
                &&& after == self
                &&& result matches Err(e)
                &&& e == error
            },
        }
    }
}

/// Reads the reply to `begin_handshake`.
fn read_server_cookie_reply(result: Value) -> (reply: Option<ServerCookie>)
    ensures
        reply is Some <==> server_cookie_reply(result) is Some,
        reply matches Some(found) ==> server_cookie_reply(result) == Some(found@),
{
    match result {
        Value::Document(reply) => {
            let mut reply = reply;
            match take(&mut reply, "server_cookie") {
                Some(Value::Binary(bytes)) => array_of_32(&bytes),
                _ => None,
            }
        },
        _ => None,
    }
}

/// Reads the reply to `send_response`.
fn read_channel_grant(result: Value) -> (granted: bool)
    ensures
        granted == is_channel_grant(result),
{
    match result {
        Value::Document(reply) => is_empty(&reply),
        _ => false,
    }
}

impl EndpointClient {
    /// A client that asks the endpoint server `server_service_id` for the
    /// channel `requested_channel`, under the identity
    /// `client_service_id`.
    pub fn new(
        server_service_id: GoslingV3OnionServiceId,
        requested_channel: String,
        client_service_id: GoslingV3OnionServiceId,
    ) -> (client: EndpointClient)
        ensures
            client@ == EndpointClientView::initial(server_service_id@, requested_channel@, client_service_id@),
    {
        EndpointClient {
            server_service_id,
            requested_channel,
            client_service_id,
            state: EndpointClientState::BeginHandshake,
            begin_handshake_request_cookie: None,
            cookies: None,
            call_handed_out: false,
            send_response_request_cookie: None,
        }
    }

    /// Where the client stands.
    pub fn state(&self) -> (state: EndpointClientState)
        ensures
            state == self@.state,
    {
        self.state
    }

    /// The service id of the endpoint server.
    pub fn server_service_id(&self) -> (id: &GoslingV3OnionServiceId)
        ensures
            id@ == self@.server_service_id,
    {
        &self.server_service_id
    }

    /// The name of the channel that the client asks for.
    pub fn requested_channel(&self) -> (channel: &str)
        ensures
            channel@ == self@.requested_channel,
    {
        self.requested_channel.as_str()
    }

    fn awaited(&self) -> (cookie: Option<RequestCookie>)
        ensures
            cookie == self@.awaited_cookie(),
    {
        match self.state {
            EndpointClientState::WaitingForServerCookie => if self.cookies.is_none() {
                self.begin_handshake_request_cookie
            } else {
                None
            },
            EndpointClientState::WaitingForProofVerification => self.send_response_request_cookie,
            _ => None,
        }
    }

    fn sign_request(&self) -> (result: Result<EndpointClientOutput, Error>)
        requires
            self@.server_cookie is Some,
        ensures
            result is Ok <==> vstd::utf8::is_ascii_chars(self@.requested_channel),
            result matches Ok(output) ==> self@.asks_signature(output),
            result matches Err(e) ==> e == Error::BadArgument,
    {
        match &self.cookies {
            Some(cookies) => {
                let built = build_client_proof(
                    DomainSeparator::GoslingEndpoint,
                    self.requested_channel.as_str(),
                    &self.client_service_id,
                    &self.server_service_id,
                    &cookies.1,
                    &cookies.0,
                );
                match built {
                    Ok(bytes) => Ok(EndpointClientOutput::Sign { client_proof: bytes }),
                    Err(error) => Err(error),
                }
            },
            None => Err(Error::BadArgument),
        }
    }

    fn tick(&self) -> (result: Result<EndpointClientOutput, Error>)
        requires
            !(self@.state is HandshakeComplete),
        ensures
            self@.step(EndpointClientInput::Tick, None, self@, result),
    {
        match self.state {
            EndpointClientState::BeginHandshake => {
                if !self.requested_channel.as_str().is_ascii() {
                    return Err(Error::BadArgument);
                }
                let mut arguments = new_document();
                put(&mut arguments, "version", Value::Text(version_text().to_owned()));
                put(&mut arguments, "channel", Value::Text(self.requested_channel.clone()));
                Ok(
                    EndpointClientOutput::Call(
                        Call {
                            namespace: "gosling_endpoint".to_owned(),
                            function: "begin_handshake".to_owned(),
                            version: 0,
                            arguments,
                        },
                    ),
                )
            },
            EndpointClientState::WaitingForServerCookie => {
                if self.cookies.is_none() {
                    Ok(EndpointClientOutput::PollResponse)
                } else if self.call_handed_out {
                    Ok(EndpointClientOutput::Idle)
                } else {
                    self.sign_request()
                }
            },
            EndpointClientState::WaitingForProofVerification => Ok(EndpointClientOutput::PollResponse),
            EndpointClientState::HandshakeComplete => Err(Error::InvalidState),
        }
    }

    fn response(
        &mut self,
        response: Response,
        drawn: Option<ClientCookie>,
    ) -> (result: Result<EndpointClientOutput, Error>)
        requires
            !(old(self)@.state is HandshakeComplete),
        ensures
            old(self)@.step(EndpointClientInput::Response(response), cookie_bytes(drawn), final(self)@, result),
    {
        let expected = match self.awaited() {
            Some(expected) => expected,
            None => {
                return Err(Error::InvalidState);
            },
        };
        if response.cookie() != expected {
            return Err(Error::InvalidState);
        }
        match response {
            Response::Pending { .. } => Ok(EndpointClientOutput::Idle),
            Response::Error { error_code, .. } => Err(Error::RpcRemote(error_code)),
            Response::Success { result, .. } => match self.state {
                EndpointClientState::WaitingForServerCookie => {
                    let server_cookie = match read_server_cookie_reply(result) {
                        Some(server_cookie) => server_cookie,
                        None => {
                            return Err(Error::BadArgument);
                        },
                    };
                    if !self.requested_channel.as_str().is_ascii() {
                        return Err(Error::BadArgument);
                    }
                    let client_cookie = match drawn {
                        Some(client_cookie) => client_cookie,
                        None => {
                            return Err(Error::EntropyUnavailable);
                        },
                    };
                    self.cookies = Some((server_cookie, client_cookie));
                    self.sign_request()
                },
                _ => {
                    if read_channel_grant(result) {
                        self.state = EndpointClientState::HandshakeComplete;
                        Ok(EndpointClientOutput::Event(EndpointClientEvent::HandshakeCompleted))
                    } else {
                        Err(Error::BadArgument)
                    }
                },
            },
        }
    }

    fn signed(&mut self, signature: Ed25519Signature) -> (result: Result<EndpointClientOutput, Error>)
        requires
            !(old(self)@.state is HandshakeComplete),
        ensures
            old(self)@.step(
                (EndpointClientInput::Signed { client_identity_proof_signature: signature }),
                None,
                final(self)@,
                result,
            ),
    {
        match self.state {
            EndpointClientState::WaitingForServerCookie => {},
            _ => {
                return Err(Error::InvalidState);
            },
        }
        if self.call_handed_out {
            return Err(Error::InvalidState);
        }
        let client_cookie = match &self.cookies {
            Some(cookies) => cookies.1,
            None => {
                return Err(Error::InvalidState);
            },
        };
        let mut arguments = new_document();
        put(&mut arguments, "client_cookie", Value::Binary(vec_of_32(&client_cookie)));
        put(&mut arguments, "client_identity", Value::Text(self.client_service_id.to_string()));
        put(&mut arguments, "client_identity_proof_signature", Value::Binary(vec_of_64(&signature)));
        self.call_handed_out = true;
        Ok(
            EndpointClientOutput::Call(
                Call {
                    namespace: "gosling_endpoint".to_owned(),
                    function: "send_response".to_owned(),
                    version: 0,
                    arguments,
                },
            ),
        )
    }

    fn call_issued(&mut self, cookie: RequestCookie) -> (result: Result<EndpointClientOutput, Error>)
        requires
            !(old(self)@.state is HandshakeComplete),
        ensures
            old(self)@.step((EndpointClientInput::CallIssued { cookie }), None, final(self)@, result),
    {
        match self.state {
            EndpointClientState::BeginHandshake => {
                self.begin_handshake_request_cookie = Some(cookie);
                self.state = EndpointClientState::WaitingForServerCookie;
                Ok(EndpointClientOutput::Idle)
            },
            EndpointClientState::WaitingForServerCookie => {
                if self.call_handed_out {
                    self.send_response_request_cookie = Some(cookie);
                    self.state = EndpointClientState::WaitingForProofVerification;
                    Ok(EndpointClientOutput::Idle)
                } else {
                    Err(Error::InvalidState)
                }
            },
            _ => Err(Error::InvalidState),
        }
    }

    /// One step of the handshake, with the cookie `drawn` at hand for the
    /// step that needs one. What it does is `step` of the client's view.
    pub fn advance(
        &mut self,
        input: EndpointClientInput,
        drawn: Option<ClientCookie>,
    ) -> (result: Result<EndpointClientOutput, Error>)
        ensures
            old(self)@.step(input, cookie_bytes(drawn), final(self)@, result),
    {
        match self.state {
            EndpointClientState::HandshakeComplete => {
                return Err(Error::InvalidState);
            },
            _ => {},
        }
        match input {
            EndpointClientInput::Tick => self.tick(),
            EndpointClientInput::CallIssued { cookie } => self.call_issued(cookie),
            EndpointClientInput::NoResponse => match self.awaited() {
                Some(_) => Ok(EndpointClientOutput::Idle),
                None => Err(Error::InvalidState),
            },
            EndpointClientInput::Response(response) => self.response(response, drawn),
            EndpointClientInput::Signed { client_identity_proof_signature } => self.signed(
                client_identity_proof_signature,
            ),
            EndpointClientInput::TransportFailed => Err(Error::RpcTransport),
        }
    }

    /// Whether the step on `input` draws a cookie.
    pub fn draws_cookie(&self, input: &EndpointClientInput) -> (draws: bool)
        ensures
            draws == self@.draws_cookie(*input),
    {
        let success = match input {
            EndpointClientInput::Response(Response::Success { .. }) => true,
            _ => false,
        };
        let waiting = match self.state {
            EndpointClientState::WaitingForServerCookie => true,
            _ => false,
        };
        success && waiting && self.cookies.is_none()
    }

    /// One step of the handshake. The step that takes the server's cookie
    /// draws the client cookie, of 32 bytes, from the operating system;
    /// every other step is `advance` without a cookie.
    pub fn update(&mut self, input: EndpointClientInput) -> (result: Result<EndpointClientOutput, Error>)
        ensures
            !old(self)@.draws_cookie(input) ==> old(self)@.step(input, None, final(self)@, result),
            old(self)@.draws_cookie(input) ==> exists|drawn: Option<Seq<u8>>|
                is_cookie_draw(drawn) && #[trigger] old(self)@.step(input, drawn, final(self)@, result),
    {
        if self.draws_cookie(&input) {
            let drawn = draw_cookie();
            let result = self.advance(input, drawn);
            proof {
                lemma_cookie_draw(drawn);
            }
            assert(old(self)@.step(input, cookie_bytes(drawn), self@, result));
            result
        } else {
            self.advance(input, None)
        }
    }
}

} // verus!
