//! The context: the handshakes in flight, by their handles, and the
//! endpoints that are listened for. It gives out the handles, says in
//! which order a tick steps the handshakes, passes what the driver
//! observed to the handshake it concerns, turns what the handshake says
//! into the context's events, and retires the handshake when it has come
//! to its end.

use vstd::prelude::*;
use vstd::string::*;
use crate::client_proof::{ClientCookie, ServerCookie};
use crate::document::Value;
use crate::endpoint_client::{
    EndpointClient, EndpointClientEvent, EndpointClientInput, EndpointClientOutput,
    EndpointClientView,
};
use crate::endpoint_server::{
    EndpointServer, EndpointServerEvent, EndpointServerExec, EndpointServerView,
};
use crate::error::{failed_with, Error, GoslingError};
use crate::identity_client::{
    cookie_bytes, is_cookie_draw, lemma_cookie_draw, IdentityClient, IdentityClientEvent,
    IdentityClientInput, IdentityClientOutput, IdentityClientView, IdentityProofRequest,
};
use crate::identity_server::{
    IdentityServer, IdentityServerEvent, IdentityServerExec, IdentityServerResult,
    IdentityServerView,
};
use crate::keys::{
    draw_cookie, GoslingEd25519PrivateKey, GoslingX25519PrivateKey, GoslingX25519PublicKey,
};
use crate::listeners::{EndpointListenerView, EndpointListeners};
use crate::rpc::{Call, RequestCookie};
use crate::service_id::GoslingV3OnionServiceId;
use crate::table::{HandshakeHandle, Table};

verus! {

/// What the onion-routing transport reports.
#[derive(Debug)]
pub enum TorEvent {
    /// How far the transport has come in its bootstrap.
    BootstrapStatus { progress: u32, tag: String, summary: String },
    /// The transport is ready.
    BootstrapComplete,
    /// A line of the transport's log.
    LogReceived { line: String },
    /// The onion service with this service id can be reached.
    OnionServicePublished { service_id: GoslingV3OnionServiceId },
}

/// What a context tells the application.
#[derive(Debug)]
pub enum ContextEvent {
    /// How far the transport has come in its bootstrap.
    TorBootstrapStatusReceived { progress: u32, tag: String, summary: String },
    /// The transport is ready: handshakes can begin.
    TorBootstrapCompleted,
    /// A line of the transport's log.
    TorLogReceived { line: String },
    /// An identity server sent its challenge. The application answers
    /// through `identity_client_handle_challenge_received`.
    IdentityClientChallengeReceived {
        handle: HandshakeHandle,
        identity_service_id: GoslingV3OnionServiceId,
        endpoint_name: String,
        endpoint_challenge: bson::Document,
    },
    /// An identity server granted an endpoint.
    IdentityClientHandshakeCompleted {
        handle: HandshakeHandle,
        identity_service_id: GoslingV3OnionServiceId,
        endpoint_service_id: GoslingV3OnionServiceId,
        endpoint_name: String,
        client_auth_private_key: GoslingX25519PrivateKey,
    },
    /// An outbound identity handshake failed.
    IdentityClientHandshakeFailed { handle: HandshakeHandle, reason: Error },
    /// The identity server can be reached.
    IdentityServerPublished,
    /// A client asked the identity server for an endpoint. The
    /// application answers through
    /// `identity_server_handle_endpoint_request_received`.
    IdentityServerEndpointRequestReceived {
        handle: HandshakeHandle,
        client_service_id: GoslingV3OnionServiceId,
        requested_endpoint: String,
    },
    /// A client answered the identity server's challenge. The application
    /// answers through
    /// `identity_server_handle_challenge_response_received`.
    IdentityServerChallengeResponseReceived { handle: HandshakeHandle, challenge_response: bson::Document },
    /// The identity server granted a client an endpoint.
    IdentityServerHandshakeCompleted {
        handle: HandshakeHandle,
        endpoint_private_key: GoslingEd25519PrivateKey,
        endpoint_name: String,
        client_service_id: GoslingV3OnionServiceId,
        client_auth_public_key: GoslingX25519PublicKey,
    },
    /// The identity server turned a client away.
    IdentityServerHandshakeRejected {
        handle: HandshakeHandle,
        client_allowed: bool,
        client_requested_endpoint_valid: bool,
        client_proof_signature_valid: bool,
        client_auth_signature_valid: bool,
        challenge_response_valid: bool,
    },
    /// An inbound identity handshake failed.
    IdentityServerHandshakeFailed { handle: HandshakeHandle, reason: Error },
    /// An endpoint server opened the channel that was asked for. The
    /// stream of the handshake now belongs to the application.
    EndpointClientHandshakeCompleted {
        handle: HandshakeHandle,
        endpoint_service_id: GoslingV3OnionServiceId,
        channel_name: String,
    },
    /// An outbound endpoint handshake failed.
    EndpointClientHandshakeFailed { handle: HandshakeHandle, reason: Error },
    /// An endpoint server can be reached.
    EndpointServerPublished { endpoint_service_id: GoslingV3OnionServiceId, endpoint_name: String },
    /// A client asked an endpoint server for a channel.
    EndpointServerChannelRequestReceived {
        handle: HandshakeHandle,
        endpoint_service_id: GoslingV3OnionServiceId,
        requested_channel: String,
    },
    /// An endpoint server opened a channel. The stream of the handshake
    /// now belongs to the application.
    EndpointServerHandshakeCompleted {
        handle: HandshakeHandle,
        endpoint_service_id: GoslingV3OnionServiceId,
        client_service_id: GoslingV3OnionServiceId,
        channel_name: String,
    },
    /// An endpoint server turned a client away.
    EndpointServerHandshakeRejected {
        handle: HandshakeHandle,
        client_allowed: bool,
        client_requested_channel_valid: bool,
        client_proof_signature_valid: bool,
    },
    /// An inbound endpoint handshake failed.
    EndpointServerHandshakeFailed { handle: HandshakeHandle, reason: Error },
}

/// The four kinds of handshake, in the order in which a tick steps them.
#[derive(Clone, Copy, Debug, PartialEq, Eq, Structural)]
pub enum HandshakeKind {
    /// An outbound identity handshake.
    IdentityClient,
    /// An inbound identity handshake.
    IdentityServer,
    /// An outbound endpoint handshake.
    EndpointClient,
    /// An inbound endpoint handshake.
    EndpointServer,
}

impl HandshakeKind {
    /// The place of the kind in a tick.
    pub open spec fn rank(self) -> int {
        match self {
            HandshakeKind::IdentityClient => 0,
            HandshakeKind::IdentityServer => 1,
            HandshakeKind::EndpointClient => 2,
            HandshakeKind::EndpointServer => 3,
        }
    }
}

/// Whether a tick steps the handshake `first` before the handshake
/// `second`: the kinds go by their rank, and the handshakes of one kind
/// by their handles.
pub open spec fn steps_before(
    first: (HandshakeKind, HandshakeHandle),
    second: (HandshakeKind, HandshakeHandle),
) -> bool {
    first.0.rank() < second.0.rank() || (first.0 == second.0 && first.1 < second.1)
}

/// What a tick of a context begins with.
#[derive(Debug)]
pub struct ContextUpdate {
    /// The events that the reports of the transport are announced as.
    /// They are the first events of the tick.
    pub events: Vec<ContextEvent>,
    /// The handshakes to step in this tick, in the order in which they
    /// are stepped. Their events follow in that order.
    pub schedule: Vec<(HandshakeKind, HandshakeHandle)>,
}

/// What a context hands back for a step of an outbound identity
/// handshake.
#[derive(Debug)]
pub enum IdentityClientStep {
    /// Nothing, until the next tick.
    Idle,
    /// Hand this call to the RPC session of the handshake.
    Call(Call),
    /// Ask the RPC session of the handshake for its next response.
    PollResponse,
    /// Sign this.
    Sign(IdentityProofRequest),
    /// Hand this event to the application.
    Event(ContextEvent),
}

/// What a context hands back for a step of an outbound endpoint
/// handshake.
#[derive(Debug)]
pub enum EndpointClientStep {
    /// Nothing, until the next tick.
    Idle,
    /// Hand this call to the RPC session of the handshake.
    Call(Call),
    /// Ask the RPC session of the handshake for its next response.
    PollResponse,
    /// Sign this client proof with the identity key.
    Sign { client_proof: Vec<u8> },
    /// Hand this event to the application.
    Event(ContextEvent),
}

/// The context of one peer.
pub struct Context {
    bootstrap_complete: bool,
    identity_port: u16,
    endpoint_port: u16,
    next_handshake_handle: HandshakeHandle,
    identity_clients: Table<IdentityClient>,
    identity_servers: Table<IdentityServer>,
    endpoint_clients: Table<EndpointClient>,
    endpoint_servers: Table<EndpointServer>,
    identity_listener: bool,
    endpoint_listeners: EndpointListeners,
    identity_private_key: GoslingEd25519PrivateKey,
    identity_service_id: GoslingV3OnionServiceId,
}

/// A context as the contracts speak of it.
pub struct ContextView {
    /// Whether the transport is ready.
    pub bootstrap_complete: bool,
    /// The port of the identity server.
    pub identity_port: u16,
    /// The port of the endpoint servers.
    pub endpoint_port: u16,
    /// The handle that the next handshake is given.
    pub next_handshake_handle: HandshakeHandle,
    /// The outbound identity handshakes in flight.
    pub identity_clients: Map<HandshakeHandle, IdentityClientView>,
    /// The inbound identity handshakes in flight.
    pub identity_servers: Map<HandshakeHandle, IdentityServerView>,
    /// The outbound endpoint handshakes in flight.
    pub endpoint_clients: Map<HandshakeHandle, EndpointClientView>,
    /// The inbound endpoint handshakes in flight.
    pub endpoint_servers: Map<HandshakeHandle, EndpointServerView>,
    /// Whether the identity server listens.
    pub identity_listener: bool,
    /// The endpoints that are listened for, by their service ids.
    pub endpoint_listeners: Map<Seq<char>, EndpointListenerView>,
    /// The private key behind the identity of this peer.
    pub identity_private_key: Seq<u8>,
    /// The service id of this peer.
    pub identity_service_id: Seq<char>,
}

impl View for Context {
    type V = ContextView;

    closed spec fn view(&self) -> ContextView {
        ContextView {
            bootstrap_complete: self.bootstrap_complete,
            identity_port: self.identity_port,
            endpoint_port: self.endpoint_port,
            next_handshake_handle: self.next_handshake_handle,
            identity_clients: self.identity_clients@.map_values(|client: IdentityClient| client@),
            identity_servers: self.identity_servers@.map_values(|server: IdentityServer| server@),
            endpoint_clients: self.endpoint_clients@.map_values(|client: EndpointClient| client@),
            endpoint_servers: self.endpoint_servers@.map_values(|server: EndpointServer| server@),
            identity_listener: self.identity_listener,
            endpoint_listeners: self.endpoint_listeners@,
            identity_private_key: self.identity_private_key@,
            identity_service_id: self.identity_service_id@,
        }
    }
}

impl ContextView {
    /// A context without handshakes and without listeners, whose
    /// transport is not ready.
    pub open spec fn initial(
        identity_port: u16,
        endpoint_port: u16,
        identity_private_key: Seq<u8>,
        identity_service_id: Seq<char>,
    ) -> ContextView {
        ContextView {
            bootstrap_complete: false,
            identity_port,
            endpoint_port,
            next_handshake_handle: 0,
            identity_clients: Map::empty(),
            identity_servers: Map::empty(),
            endpoint_clients: Map::empty(),
            endpoint_servers: Map::empty(),
            identity_listener: false,
            endpoint_listeners: Map::empty(),
            identity_private_key,
            identity_service_id,
        }
    }

    /// Whether a handshake of the kind `kind` goes by `handle`.
    pub open spec fn holds(self, kind: HandshakeKind, handle: HandshakeHandle) -> bool {
        match kind {
            HandshakeKind::IdentityClient => self.identity_clients.contains_key(handle),
            HandshakeKind::IdentityServer => self.identity_servers.contains_key(handle),
            HandshakeKind::EndpointClient => self.endpoint_clients.contains_key(handle),
            HandshakeKind::EndpointServer => self.endpoint_servers.contains_key(handle),
        }
    }

    /// Whether `schedule` is the order in which a tick steps the
    /// handshakes in flight: every handshake in flight, once; the
    /// outbound identity handshakes first, then the inbound ones, then the
    /// outbound and the inbound endpoint handshakes; and the handshakes
    /// of one kind by ascending handles.
    pub open spec fn is_schedule(self, schedule: Seq<(HandshakeKind, HandshakeHandle)>) -> bool {
        &&& forall|i: int, j: int|
            0 <= i < j < schedule.len() ==> steps_before(#[trigger] schedule[i], #[trigger] schedule[j])
        &&& forall|kind: HandshakeKind, handle: HandshakeHandle|
            schedule.contains((kind, handle)) <==> self.holds(kind, handle)
    }

    /// Whether a handshake goes by `handle`.
    pub open spec fn in_flight(self, handle: HandshakeHandle) -> bool {
        ||| self.identity_clients.contains_key(handle)
        ||| self.identity_servers.contains_key(handle)
        ||| self.endpoint_clients.contains_key(handle)
        ||| self.endpoint_servers.contains_key(handle)
    }

    /// What holds of every context that was made by `Context::new` and
    /// changed by the context's own functions: the handles in flight are
    /// below the handle that is given out next, and no handle stands for
    /// two handshakes.
    pub open spec fn handles_are_fresh(self) -> bool {
        &&& forall|handle: HandshakeHandle| #[trigger]
            self.in_flight(handle) ==> handle < self.next_handshake_handle
        &&& forall|handle: HandshakeHandle| #[trigger]
            self.identity_clients.contains_key(handle) ==> !self.identity_servers.contains_key(handle)
                && !self.endpoint_clients.contains_key(handle) && !self.endpoint_servers.contains_key(
                handle,
            )
        &&& forall|handle: HandshakeHandle| #[trigger]
            self.identity_servers.contains_key(handle) ==> !self.endpoint_clients.contains_key(handle)
                && !self.endpoint_servers.contains_key(handle)
        &&& forall|handle: HandshakeHandle| #[trigger]
            self.endpoint_clients.contains_key(handle) ==> !self.endpoint_servers.contains_key(handle)
    }

    /// Why no handshake can begin, if none can: the transport is not
    /// ready, or the handles have run out.
    pub open spec fn begin_refusal(self) -> Option<Error> {
        if !self.bootstrap_complete {
            Some(Error::NotBootstrapped)
        } else if self.next_handshake_handle == usize::MAX {
            Some(Error::HandlesExhausted)
        } else {
            None
        }
    }

    /// What a report of the transport is announced as. The reports of
    /// the bootstrap and of the log are announced as they are. A service
    /// that was published is announced as the identity server where it
    /// has the service id of this peer, as an endpoint server where it is
    /// one of the endpoints that are listened for, and not at all
    /// otherwise.
    pub open spec fn tor_event_announced(self, event: TorEvent, announced: Option<ContextEvent>) -> bool {
        match event {
            TorEvent::BootstrapStatus { progress, tag, summary } => {
                &&& announced matches Some(
                    ContextEvent::TorBootstrapStatusReceived { progress: p, tag: t, summary: s },
                )
                &&& p == progress
                &&& t@ == tag@
                &&& s@ == summary@
            },
            TorEvent::BootstrapComplete => announced matches Some(ContextEvent::TorBootstrapCompleted),
            TorEvent::LogReceived { line } => {
                &&& announced matches Some(ContextEvent::TorLogReceived { line: l })
                &&& l@ == line@
            },
            TorEvent::OnionServicePublished { service_id } => if service_id@ == self.identity_service_id {
                announced matches Some(ContextEvent::IdentityServerPublished)
            } else if self.endpoint_listeners.contains_key(service_id@) {
                &&& announced matches Some(
                    ContextEvent::EndpointServerPublished { endpoint_service_id, endpoint_name },
                )
                &&& endpoint_service_id@ == service_id@
                &&& endpoint_name@ == self.endpoint_listeners[service_id@].endpoint_name
            } else {
                announced is None
            },
        }
    }

    /// Whether a report of the transport is announced at all.
    pub open spec fn announces_tor_event(self, event: TorEvent) -> bool {
        match event {
            TorEvent::OnionServicePublished { service_id } => service_id@ == self.identity_service_id
                || self.endpoint_listeners.contains_key(service_id@),
            _ => true,
        }
    }

    /// What a batch of reports of the transport is announced as: each
    /// report that is announced, in the order of the reports.
    pub open spec fn tor_events_announced(self, events: Seq<TorEvent>, announced: Seq<ContextEvent>) -> bool
        decreases events.len(),
    {
        if events.len() == 0 {
            announced.len() == 0
        } else if self.announces_tor_event(events[0]) {
            &&& announced.len() > 0
            &&& self.tor_event_announced(events[0], Some(announced[0]))
            &&& self.tor_events_announced(events.drop_first(), announced.drop_first())
        } else {
            self.tor_events_announced(events.drop_first(), announced)
        }
    }

    /// Whether one of the reports says that the transport is ready.
    pub open spec fn reports_bootstrap(events: Seq<TorEvent>) -> bool {
        exists|i: int| 0 <= i < events.len() && (#[trigger] events[i]) is BootstrapComplete
    }

    /// Why a connection to the endpoint `endpoint` is not taken, if it is
    /// not: the endpoint is not listened for, the handles have run out, or
    /// no server cookie could be drawn.
    pub open spec fn accept_refusal(self, endpoint: Seq<char>, drawn: Option<Seq<u8>>) -> Option<Error> {
        if !self.endpoint_listeners.contains_key(endpoint) {
            Some(Error::UnknownHandle)
        } else if self.next_handshake_handle == usize::MAX {
            Some(Error::HandlesExhausted)
        } else if drawn is None {
            Some(Error::EntropyUnavailable)
        } else {
            None
        }
    }

    /// The context with one more outbound identity handshake, under the
    /// handle that was next.
    pub open spec fn with_identity_client(self, client: IdentityClientView) -> ContextView {
        ContextView {
            identity_clients: self.identity_clients.insert(self.next_handshake_handle, client),
            next_handshake_handle: (self.next_handshake_handle + 1) as usize,
            ..self
        }
    }

    /// The context with one more inbound identity handshake, under the
    /// handle that was next.
    pub open spec fn with_identity_server(self, server: IdentityServerView) -> ContextView {
        ContextView {
            identity_servers: self.identity_servers.insert(self.next_handshake_handle, server),
            next_handshake_handle: (self.next_handshake_handle + 1) as usize,
            ..self
        }
    }

    /// The context with one more outbound endpoint handshake, under the
    /// handle that was next.
    pub open spec fn with_endpoint_client(self, client: EndpointClientView) -> ContextView {
        ContextView {
            endpoint_clients: self.endpoint_clients.insert(self.next_handshake_handle, client),
            next_handshake_handle: (self.next_handshake_handle + 1) as usize,
            ..self
        }
    }

    /// The context with one more inbound endpoint handshake, under the
    /// handle that was next.
    pub open spec fn with_endpoint_server(self, server: EndpointServerView) -> ContextView {
        ContextView {
            endpoint_servers: self.endpoint_servers.insert(self.next_handshake_handle, server),
            next_handshake_handle: (self.next_handshake_handle + 1) as usize,
            ..self
        }
    }
}

/// The step of an outbound identity handshake that `step` hands back for
/// the handshake `handle`, as that handshake gave it.
pub open spec fn lower_identity_client_step(
    step: IdentityClientStep,
    handle: HandshakeHandle,
) -> Option<IdentityClientOutput> {
    match step {
        IdentityClientStep::Idle => Some(IdentityClientOutput::Idle),
        IdentityClientStep::Call(call) => Some(IdentityClientOutput::Call(call)),
        IdentityClientStep::PollResponse => Some(IdentityClientOutput::PollResponse),
        IdentityClientStep::Sign(request) => Some(IdentityClientOutput::Sign(request)),
        IdentityClientStep::Event(
            ContextEvent::IdentityClientChallengeReceived { handle: h, identity_service_id, endpoint_name, endpoint_challenge },
        ) => if h == handle {
            Some(
                IdentityClientOutput::Event(
                    IdentityClientEvent::ChallengeReceived { identity_service_id, endpoint_name, endpoint_challenge },
                ),
            )
        } else {
            None
        },
        IdentityClientStep::Event(
            ContextEvent::IdentityClientHandshakeCompleted {
                handle: h,
                identity_service_id,
                endpoint_service_id,
                endpoint_name,
                client_auth_private_key,
            },
        ) => if h == handle {
            Some(
                IdentityClientOutput::Event(
                    IdentityClientEvent::HandshakeCompleted {
                        identity_service_id,
                        endpoint_service_id,
                        endpoint_name,
                        client_auth_private_key,
                    },
                ),
            )
        } else {
            None
        },
        _ => None,
    }
}

/// The event of an inbound identity handshake that `event` stands for,
/// if it is an event of the handshake `handle`.
pub open spec fn lower_identity_server_event(
    event: ContextEvent,
    handle: HandshakeHandle,
) -> Option<IdentityServerEvent> {
    match event {
        ContextEvent::IdentityServerEndpointRequestReceived { handle: h, client_service_id, requested_endpoint } => if h
            == handle {
            Some(IdentityServerEvent::EndpointRequestReceived { client_service_id, requested_endpoint })
        } else {
            None
        },
        ContextEvent::IdentityServerChallengeResponseReceived { handle: h, challenge_response } => if h == handle {
            Some(IdentityServerEvent::ChallengeResponseReceived { challenge_response })
        } else {
            None
        },
        ContextEvent::IdentityServerHandshakeCompleted {
            handle: h,
            endpoint_private_key,
            endpoint_name,
            client_service_id,
            client_auth_public_key,
        } => if h == handle {
            Some(
                IdentityServerEvent::HandshakeCompleted {
                    endpoint_private_key,
                    endpoint_name,
                    client_service_id,
                    client_auth_public_key,
                },
            )
        } else {
            None
        },
        ContextEvent::IdentityServerHandshakeRejected {
            handle: h,
            client_allowed,
            client_requested_endpoint_valid,
            client_proof_signature_valid,
            client_auth_signature_valid,
            challenge_response_valid,
        } => if h == handle {
            Some(
                IdentityServerEvent::HandshakeRejected {
                    client_allowed,
                    client_requested_endpoint_valid,
                    client_proof_signature_valid,
                    client_auth_signature_valid,
                    challenge_response_valid,
                },
            )
        } else {
            None
        },
        _ => None,
    }
}

/// The event of an inbound endpoint handshake that `event` stands for, if
/// it is an event of the handshake `handle` on the endpoint
/// `endpoint_service_id`.
pub open spec fn lower_endpoint_server_event(
    event: ContextEvent,
    handle: HandshakeHandle,
    endpoint: Seq<char>,
) -> Option<EndpointServerEvent> {
    match event {
        ContextEvent::EndpointServerChannelRequestReceived { handle: h, endpoint_service_id, requested_channel } => if h
            == handle && endpoint_service_id@ == endpoint {
            Some(EndpointServerEvent::ChannelRequestReceived { requested_channel })
        } else {
            None
        },
        ContextEvent::EndpointServerHandshakeCompleted {
            handle: h,
            endpoint_service_id,
            client_service_id,
            channel_name,
        } => if h == handle && endpoint_service_id@ == endpoint {
            Some(EndpointServerEvent::HandshakeCompleted { client_service_id, channel_name })
        } else {
            None
        },
        ContextEvent::EndpointServerHandshakeRejected {
            handle: h,
            client_allowed,
            client_requested_channel_valid,
            client_proof_signature_valid,
        } => if h == handle {
            Some(
                EndpointServerEvent::HandshakeRejected {
                    client_allowed,
                    client_requested_channel_valid,
                    client_proof_signature_valid,
                },
            )
        } else {
            None
        },
        _ => None,
    }
}

/// Whether `step` is what a context hands back for the step `output` of
/// the outbound endpoint handshake `handle`, whose client is `client`.
pub open spec fn raises_endpoint_client_step(
    step: EndpointClientStep,
    handle: HandshakeHandle,
    client: EndpointClientView,
    output: EndpointClientOutput,
) -> bool {
    match output {
        EndpointClientOutput::Idle => step is Idle,
        EndpointClientOutput::Call(call) => step == EndpointClientStep::Call(call),
        EndpointClientOutput::PollResponse => step is PollResponse,
        EndpointClientOutput::Sign { client_proof } => step == (EndpointClientStep::Sign { client_proof }),
        EndpointClientOutput::Event(EndpointClientEvent::HandshakeCompleted) => {
            &&& step matches EndpointClientStep::Event(
                ContextEvent::EndpointClientHandshakeCompleted { handle: h, endpoint_service_id, channel_name },
            )
            &&& h == handle
            &&& endpoint_service_id@ == client.server_service_id
            &&& channel_name@ == client.requested_channel
        },
    }
}

impl ContextView {
    /// The context without the outbound identity handshake `handle`.
    pub open spec fn without_identity_client(self, handle: HandshakeHandle) -> ContextView {
        ContextView { identity_clients: self.identity_clients.remove(handle), ..self }
    }

    /// The context with `client` as the outbound identity handshake
    /// `handle`.
    pub open spec fn with_identity_client_at(
        self,
        handle: HandshakeHandle,
        client: IdentityClientView,
    ) -> ContextView {
        ContextView { identity_clients: self.identity_clients.insert(handle, client), ..self }
    }

    /// The context without the inbound identity handshake `handle`.
    pub open spec fn without_identity_server(self, handle: HandshakeHandle) -> ContextView {
        ContextView { identity_servers: self.identity_servers.remove(handle), ..self }
    }

    /// The context with `server` as the inbound identity handshake
    /// `handle`.
    pub open spec fn with_identity_server_at(
        self,
        handle: HandshakeHandle,
        server: IdentityServerView,
    ) -> ContextView {
        ContextView { identity_servers: self.identity_servers.insert(handle, server), ..self }
    }

    /// The context without the outbound endpoint handshake `handle`.
    pub open spec fn without_endpoint_client(self, handle: HandshakeHandle) -> ContextView {
        ContextView { endpoint_clients: self.endpoint_clients.remove(handle), ..self }
    }

    /// The context with `client` as the outbound endpoint handshake
    /// `handle`.
    pub open spec fn with_endpoint_client_at(
        self,
        handle: HandshakeHandle,
        client: EndpointClientView,
    ) -> ContextView {
        ContextView { endpoint_clients: self.endpoint_clients.insert(handle, client), ..self }
    }

    /// The context without the inbound endpoint handshake `handle`.
    pub open spec fn without_endpoint_server(self, handle: HandshakeHandle) -> ContextView {
        ContextView { endpoint_servers: self.endpoint_servers.remove(handle), ..self }
    }

    /// The context with `server` as the inbound endpoint handshake
    /// `handle`.
    pub open spec fn with_endpoint_server_at(
        self,
        handle: HandshakeHandle,
        server: EndpointServerView,
    ) -> ContextView {
        ContextView { endpoint_servers: self.endpoint_servers.insert(handle, server), ..self }
    }

    /// What holds of a step of the outbound identity handshake `handle`:
    /// the context hands back what the handshake hands out, with an event
    /// of the handshake as an event of the context. A handshake that has
    /// come to its end is retired. A handshake that fails is retired too,
    /// and its failure is an event.
    pub open spec fn identity_client_stepped(
        self,
        handle: HandshakeHandle,
        input: IdentityClientInput,
        drawn: Option<Seq<u8>>,
        after: ContextView,
        step: IdentityClientStep,
    ) -> bool {
        let client = self.identity_clients[handle];
        match client.next(input, drawn) {
            Ok(next) => {
                &&& lower_identity_client_step(step, handle) matches Some(output)
                &&& client.emits(input, next, output)
                &&& after == if next.state is HandshakeComplete {
                    self.without_identity_client(handle)
                } else {
                    self.with_identity_client_at(handle, next)
                }
            },
            Err(error) => {
                &&& step matches IdentityClientStep::Event(
                    ContextEvent::IdentityClientHandshakeFailed { handle: h, reason },
                )
                &&& h == handle
                &&& reason == error
                &&& after == self.without_identity_client(handle)
            },
        }
    }

    /// What holds of a step of the outbound endpoint handshake `handle`:
    /// as for an identity handshake.
    pub open spec fn endpoint_client_stepped(
        self,
        handle: HandshakeHandle,
        input: EndpointClientInput,
        drawn: Option<Seq<u8>>,
        after: ContextView,
        step: EndpointClientStep,
    ) -> bool {
        let client = self.endpoint_clients[handle];
        match client.next(input, drawn) {
            Ok(next) => {
                &&& exists|output: EndpointClientOutput| #[trigger]
                    client.emits(input, next, output) && raises_endpoint_client_step(step, handle, client, output)
                &&& after == if next.state is HandshakeComplete {
                    self.without_endpoint_client(handle)
                } else {
                    self.with_endpoint_client_at(handle, next)
                }
            },
            Err(error) => {
                &&& step matches EndpointClientStep::Event(
                    ContextEvent::EndpointClientHandshakeFailed { handle: h, reason },
                )
                &&& h == handle
                &&& reason == error
                &&& after == self.without_endpoint_client(handle)
            },
        }
    }

    /// What holds of a tick of the inbound identity handshake `handle`.
    /// Where the RPC session of the handshake has failed, the handshake
    /// is retired and its failure is the event. Otherwise the event of
    /// the handshake, if it has one, is the event of the context, and a
    /// handshake that has come to its end is retired.
    pub open spec fn identity_server_ticked(
        self,
        handle: HandshakeHandle,
        rpc_failed: bool,
        after: ContextView,
        event: Option<ContextEvent>,
    ) -> bool {
        let server = self.identity_servers[handle];
        if rpc_failed {
            &&& event matches Some(ContextEvent::IdentityServerHandshakeFailed { handle: h, reason })
            &&& h == handle
            &&& reason == Error::RpcTransport
            &&& after == self.without_identity_server(handle)
        } else {
            &&& match event {
                Some(event) => lower_identity_server_event(event, handle) matches Some(lowered)
                    && server.announces(Some(lowered)),
                None => server.announces(None),
            }
            &&& after == if server.after_update().state is HandshakeComplete {
                self.without_identity_server(handle)
            } else {
                self.with_identity_server_at(handle, server.after_update())
            }
        }
    }

    /// What holds of a tick of the inbound endpoint handshake `handle`:
    /// as for an identity handshake. A tick that the handshake refuses
    /// retires it too, and the refusal is the event.
    pub open spec fn endpoint_server_ticked(
        self,
        handle: HandshakeHandle,
        rpc_failed: bool,
        after: ContextView,
        event: Option<ContextEvent>,
    ) -> bool {
        let server = self.endpoint_servers[handle];
        if rpc_failed {
            &&& event matches Some(ContextEvent::EndpointServerHandshakeFailed { handle: h, reason })
            &&& h == handle
            &&& reason == Error::RpcTransport
            &&& after == self.without_endpoint_server(handle)
        } else {
            match server.after_update() {
                Ok(next) => {
                    &&& match event {
                        Some(event) => lower_endpoint_server_event(event, handle, server.server_identity) matches Some(
                            lowered,
                        ) && server.announces(Some(lowered)),
                        None => server.announces(None),
                    }
                    &&& after == if next.state is HandshakeComplete {
                        self.without_endpoint_server(handle)
                    } else {
                        self.with_endpoint_server_at(handle, next)
                    }
                },
                Err(error) => {
                    &&& event matches Some(ContextEvent::EndpointServerHandshakeFailed { handle: h, reason })
                    &&& h == handle
                    &&& reason == error
                    &&& after == self.without_endpoint_server(handle)
                },
            }
        }
    }
}

/// The handshakes of one kind with these handles, in the order of the
/// handles.
pub open spec fn of_kind(
    kind: HandshakeKind,
    handles: Seq<HandshakeHandle>,
) -> Seq<(HandshakeKind, HandshakeHandle)> {
    Seq::new(handles.len(), |i: int| (kind, handles[i]))
}

/// Which part of a schedule that is made of four parts an index falls in.
proof fn lemma_scheduled_at(
    a: Seq<(HandshakeKind, HandshakeHandle)>,
    b: Seq<(HandshakeKind, HandshakeHandle)>,
    c: Seq<(HandshakeKind, HandshakeHandle)>,
    d: Seq<(HandshakeKind, HandshakeHandle)>,
    i: int,
)
    requires
        0 <= i < (a + b + c + d).len(),
    ensures
        (a + b + c + d)[i] == (if i < a.len() {
            a[i]
        } else if i < a.len() + b.len() {
            b[i - a.len()]
        } else if i < a.len() + b.len() + c.len() {
            c[i - a.len() - b.len()]
        } else {
            d[i - a.len() - b.len() - c.len()]
        }),
{
}

/// Puts the handshakes of one kind at the end of a schedule.
fn schedule_kind(
    schedule: &mut Vec<(HandshakeKind, HandshakeHandle)>,
    kind: HandshakeKind,
    handles: &Vec<HandshakeHandle>,
)
    ensures
        final(schedule)@ == old(schedule)@ + of_kind(kind, handles@),
{
    let mut index: usize = 0;
    while index < handles.len()
        invariant
            index <= handles@.len(),
            schedule@ == old(schedule)@ + of_kind(kind, handles@.subrange(0, index as int)),
        decreases handles@.len() - index,
    {
        schedule.push((kind, handles[index]));
        assert(old(schedule)@ + of_kind(kind, handles@.subrange(0, index as int)).push((kind, handles@[index as int]))
            =~= old(schedule)@ + of_kind(kind, handles@.subrange(0, index + 1)));
        index += 1;
    }
    assert(handles@.subrange(0, index as int) =~= handles@);
}

/// A context whose handshakes are among those of a context with fresh
/// handles has fresh handles too.
proof fn lemma_fresh_shrink(before: ContextView, after: ContextView)
    requires
        before.handles_are_fresh(),
        after.next_handshake_handle >= before.next_handshake_handle,
        forall|handle: HandshakeHandle| #[trigger]
            after.identity_clients.contains_key(handle) ==> before.identity_clients.contains_key(handle),
        forall|handle: HandshakeHandle| #[trigger]
            after.identity_servers.contains_key(handle) ==> before.identity_servers.contains_key(handle),
        forall|handle: HandshakeHandle| #[trigger]
            after.endpoint_clients.contains_key(handle) ==> before.endpoint_clients.contains_key(handle),
        forall|handle: HandshakeHandle| #[trigger]
            after.endpoint_servers.contains_key(handle) ==> before.endpoint_servers.contains_key(handle),
    ensures
        after.handles_are_fresh(),
{
    assert forall|handle: HandshakeHandle| #[trigger] after.in_flight(handle) implies handle
        < after.next_handshake_handle by {
        assert(before.in_flight(handle));
    }
}

/// A context with fresh handles still has fresh handles after one more
/// handshake was put under the handle that was next. `kind` says which
/// kind of handshake it was: 0 for an identity client, 1 for an identity
/// server, 2 for an endpoint client, 3 for an endpoint server.
proof fn lemma_fresh_grow(before: ContextView, after: ContextView, kind: int)
    requires
        before.handles_are_fresh(),
        before.next_handshake_handle < usize::MAX,
        after.next_handshake_handle == before.next_handshake_handle + 1,
        forall|handle: HandshakeHandle| #[trigger]
            after.identity_clients.contains_key(handle) ==> before.identity_clients.contains_key(handle) || (
            kind == 0 && handle == before.next_handshake_handle),
        forall|handle: HandshakeHandle| #[trigger]
            after.identity_servers.contains_key(handle) ==> before.identity_servers.contains_key(handle) || (
            kind == 1 && handle == before.next_handshake_handle),
        forall|handle: HandshakeHandle| #[trigger]
            after.endpoint_clients.contains_key(handle) ==> before.endpoint_clients.contains_key(handle) || (
            kind == 2 && handle == before.next_handshake_handle),
        forall|handle: HandshakeHandle| #[trigger]
            after.endpoint_servers.contains_key(handle) ==> before.endpoint_servers.contains_key(handle) || (
            kind == 3 && handle == before.next_handshake_handle),
    ensures
        after.handles_are_fresh(),
{
    let next = before.next_handshake_handle;
    assert(!before.in_flight(next)) by {
        if before.in_flight(next) {
            assert(next < before.next_handshake_handle);
        }
    }
    assert forall|handle: HandshakeHandle| #[trigger] after.in_flight(handle) implies handle
        < after.next_handshake_handle by {
        if handle != next {
            assert(before.in_flight(handle));
        }
    }
    assert forall|handle: HandshakeHandle| #[trigger]
        after.identity_clients.contains_key(handle) implies !after.identity_servers.contains_key(handle)
        && !after.endpoint_clients.contains_key(handle) && !after.endpoint_servers.contains_key(handle) by {
        if handle != next {
            assert(before.identity_clients.contains_key(handle));
        }
    }
    assert forall|handle: HandshakeHandle| #[trigger]
        after.identity_servers.contains_key(handle) implies !after.endpoint_clients.contains_key(handle)
        && !after.endpoint_servers.contains_key(handle) by {
        if handle != next {
            assert(before.identity_servers.contains_key(handle));
        }
    }
    assert forall|handle: HandshakeHandle| #[trigger]
        after.endpoint_clients.contains_key(handle) implies !after.endpoint_servers.contains_key(handle) by {
        if handle != next {
            assert(before.endpoint_clients.contains_key(handle));
        }
    }
}

impl Context {
    /// A context for the peer whose identity is `identity_service_id`,
    /// the service id of `identity_private_key`. Its identity server is
    /// reached at `identity_port` and its endpoint servers at
    /// `endpoint_port`.
    pub fn new(
        identity_port: u16,
        endpoint_port: u16,
        identity_private_key: GoslingEd25519PrivateKey,
        identity_service_id: GoslingV3OnionServiceId,
    ) -> (context: Context)
        ensures
            context@ == ContextView::initial(
                identity_port,
                endpoint_port,
                identity_private_key@,
                identity_service_id@,
            ),
            context@.handles_are_fresh(),
    {
        let context = Context {
            bootstrap_complete: false,
            identity_port,
            endpoint_port,
            next_handshake_handle: 0,
            identity_clients: Table::new(),
            identity_servers: Table::new(),
            endpoint_clients: Table::new(),
            endpoint_servers: Table::new(),
            identity_listener: false,
            endpoint_listeners: EndpointListeners::new(),
            identity_private_key,
            identity_service_id,
        };
        proof {
            let initial = ContextView::initial(
                identity_port,
                endpoint_port,
                identity_private_key@,
                identity_service_id@,
            );
            assert(context@.identity_clients =~= initial.identity_clients);
            assert(context@.identity_servers =~= initial.identity_servers);
            assert(context@.endpoint_clients =~= initial.endpoint_clients);
            assert(context@.endpoint_servers =~= initial.endpoint_servers);
        }
        context
    }

    /// Whether the transport is ready.
    pub fn bootstrap_complete(&self) -> (complete: bool)
        ensures
            complete == self@.bootstrap_complete,
    {
        self.bootstrap_complete
    }

    /// The port of the identity server.
    pub fn identity_port(&self) -> (port: u16)
        ensures
            port == self@.identity_port,
    {
        self.identity_port
    }

    /// The port of the endpoint servers.
    pub fn endpoint_port(&self) -> (port: u16)
        ensures
            port == self@.endpoint_port,
    {
        self.endpoint_port
    }

    /// The private key behind the identity of this peer.
    pub fn identity_private_key(&self) -> (key: GoslingEd25519PrivateKey)
        ensures
            key@ == self@.identity_private_key,
    {
        self.identity_private_key
    }

    /// The service id of this peer.
    pub fn identity_service_id(&self) -> (id: &GoslingV3OnionServiceId)
        ensures
            id@ == self@.identity_service_id,
    {
        &self.identity_service_id
    }

    /// Whether the identity server listens.
    pub fn identity_server_is_listening(&self) -> (listening: bool)
        ensures
            listening == self@.identity_listener,
    {
        self.identity_listener
    }

    fn begin_refusal(&self) -> (refusal: Option<Error>)
        ensures
            refusal == self@.begin_refusal(),
    {
        if !self.bootstrap_complete {
            Some(Error::NotBootstrapped)
        } else if self.next_handshake_handle == usize::MAX {
            Some(Error::HandlesExhausted)
        } else {
            None
        }
    }

    /// Begins an identity handshake with the identity server
    /// `identity_server_id`, for the endpoint `endpoint`. The driver has
    /// connected to that server, and made `client_auth_private_key` for
    /// the endpoint that is asked for. Gives the handle of the handshake.
    /// Fails with `NotBootstrapped` while the transport is not ready.
    pub fn identity_client_begin_handshake(
        &mut self,
        identity_server_id: GoslingV3OnionServiceId,
        endpoint: &str,
        client_auth_private_key: GoslingX25519PrivateKey,
    ) -> (result: Result<HandshakeHandle, Error>)
        ensures
            match old(self)@.begin_refusal() {
                Some(error) => final(self)@ == old(self)@ && failed_with(result, error),
                None => {
                    &&& result == Ok::<HandshakeHandle, Error>(old(self)@.next_handshake_handle)
                    &&& final(self)@ == old(self)@.with_identity_client(
                        IdentityClientView::initial(
                            identity_server_id@,
                            endpoint@,
                            old(self)@.identity_service_id,
                            client_auth_private_key@,
                        ),
                    )
                },
            },
            old(self)@.handles_are_fresh() ==> final(self)@.handles_are_fresh(),
    {
        match self.begin_refusal() {
            Some(error) => {
                return Err(error);
            },
            None => {},
        }
        let client = IdentityClient::new(
            identity_server_id,
            endpoint.to_owned(),
            self.identity_service_id.clone(),
            client_auth_private_key,
        );
        let handle = self.next_handshake_handle;
        self.identity_clients.insert(handle, client);
        self.next_handshake_handle = handle + 1;
        proof {
            assert(self@.identity_clients =~= old(self)@.identity_clients.insert(handle, client@));
            if old(self)@.handles_are_fresh() {
                lemma_fresh_grow(old(self)@, self@, 0);
            }
        }
        Ok(handle)
    }

    /// Begins an endpoint handshake with the endpoint server
    /// `endpoint_server_id`, for the channel `channel`. The driver has
    /// connected to that server. Gives the handle of the handshake. Fails
    /// with `NotBootstrapped` while the transport is not ready.
    pub fn endpoint_client_begin_handshake(
        &mut self,
        endpoint_server_id: GoslingV3OnionServiceId,
        channel: String,
    ) -> (result: Result<HandshakeHandle, Error>)
        ensures
            match old(self)@.begin_refusal() {
                Some(error) => final(self)@ == old(self)@ && failed_with(result, error),
                None => {
                    &&& result == Ok::<HandshakeHandle, Error>(old(self)@.next_handshake_handle)
                    &&& final(self)@ == old(self)@.with_endpoint_client(
                        EndpointClientView::initial(endpoint_server_id@, channel@, old(self)@.identity_service_id),
                    )
                },
            },
            old(self)@.handles_are_fresh() ==> final(self)@.handles_are_fresh(),
    {
        match self.begin_refusal() {
            Some(error) => {
                return Err(error);
            },
            None => {},
        }
        let client = EndpointClient::new(endpoint_server_id, channel, self.identity_service_id.clone());
        let handle = self.next_handshake_handle;
        self.endpoint_clients.insert(handle, client);
        self.next_handshake_handle = handle + 1;
        proof {
            assert(self@.endpoint_clients =~= old(self)@.endpoint_clients.insert(handle, client@));
            if old(self)@.handles_are_fresh() {
                lemma_fresh_grow(old(self)@, self@, 2);
            }
        }
        Ok(handle)
    }

    /// Gives up an outbound identity handshake. Fails with
    /// `UnknownHandle` where none goes by `handle`.
    pub fn identity_client_abort_identity_handshake(
        &mut self,
        handle: HandshakeHandle,
    ) -> (result: Result<(), Error>)
        ensures
            result is Ok <==> old(self)@.identity_clients.contains_key(handle),
            result is Err ==> failed_with(result, Error::UnknownHandle),
            final(self)@ == (ContextView {
                identity_clients: old(self)@.identity_clients.remove(handle),
                ..old(self)@
            }),
            old(self)@.handles_are_fresh() ==> final(self)@.handles_are_fresh(),
    {
        let removed = self.identity_clients.remove(handle);
        proof {
            assert(self@.identity_clients =~= old(self)@.identity_clients.remove(handle));
            if old(self)@.handles_are_fresh() {
                lemma_fresh_shrink(old(self)@, self@);
            }
        }
        match removed {
            Some(_) => Ok(()),
            None => Err(Error::UnknownHandle),
        }
    }

    /// Gives up an outbound endpoint handshake. Fails with
    /// `UnknownHandle` where none goes by `handle`.
    pub fn endpoint_client_abort_handshake(&mut self, handle: HandshakeHandle) -> (result: Result<(), Error>)
        ensures
            result is Ok <==> old(self)@.endpoint_clients.contains_key(handle),
            result is Err ==> failed_with(result, Error::UnknownHandle),
            final(self)@ == (ContextView {
                endpoint_clients: old(self)@.endpoint_clients.remove(handle),
                ..old(self)@
            }),
            old(self)@.handles_are_fresh() ==> final(self)@.handles_are_fresh(),
    {
        let removed = self.endpoint_clients.remove(handle);
        proof {
            assert(self@.endpoint_clients =~= old(self)@.endpoint_clients.remove(handle));
            if old(self)@.handles_are_fresh() {
                lemma_fresh_shrink(old(self)@, self@);
            }
        }
        match removed {
            Some(_) => Ok(()),
            None => Err(Error::UnknownHandle),
        }
    }

    /// Begins to listen for identity handshakes. The driver has bound the
    /// listener. Fails with `NotBootstrapped` while the transport is not
    /// ready, and with `IncorrectUsage` where the identity server listens
    /// already.
    pub fn identity_server_start(&mut self) -> (result: Result<(), Error>)
        ensures
            !old(self)@.bootstrap_complete ==> final(self)@ == old(self)@ && failed_with(
                result,
                Error::NotBootstrapped,
            ),
            old(self)@.bootstrap_complete && old(self)@.identity_listener ==> final(self)@ == old(self)@
                && failed_with(result, Error::IncorrectUsage),
            old(self)@.bootstrap_complete && !old(self)@.identity_listener ==> result is Ok && final(self)@ == (
            ContextView { identity_listener: true, ..old(self)@ }),
    {
        if !self.bootstrap_complete {
            Err(Error::NotBootstrapped)
        } else if self.identity_listener {
            Err(Error::IncorrectUsage)
        } else {
            self.identity_listener = true;
            Ok(())
        }
    }

    /// Stops listening for identity handshakes, and drops the inbound
    /// identity handshakes in flight. Fails with `NotBootstrapped` while
    /// the transport is not ready.
    pub fn identity_server_stop(&mut self) -> (result: Result<(), Error>)
        ensures
            !old(self)@.bootstrap_complete ==> final(self)@ == old(self)@ && failed_with(
                result,
                Error::NotBootstrapped,
            ),
            old(self)@.bootstrap_complete ==> result is Ok && final(self)@ == (ContextView {
                identity_listener: false,
                identity_servers: Map::empty(),
                ..old(self)@
            }),
            old(self)@.handles_are_fresh() ==> final(self)@.handles_are_fresh(),
    {
        if !self.bootstrap_complete {
            return Err(Error::NotBootstrapped);
        }
        self.identity_listener = false;
        self.identity_servers = Table::new();
        proof {
            assert(self@.identity_servers =~= Map::<HandshakeHandle, IdentityServerView>::empty());
            if old(self)@.handles_are_fresh() {
                lemma_fresh_shrink(old(self)@, self@);
            }
        }
        Ok(())
    }

    /// Takes a connection that the identity listener accepted: a new
    /// inbound identity handshake, whose handle is given. Fails with
    /// `IncorrectUsage` where the identity server does not listen.
    pub fn identity_server_accept(&mut self) -> (result: Result<HandshakeHandle, Error>)
        ensures
            !old(self)@.identity_listener ==> final(self)@ == old(self)@ && failed_with(
                result,
                Error::IncorrectUsage,
            ),
            old(self)@.identity_listener && old(self)@.next_handshake_handle == usize::MAX ==> final(self)@
                == old(self)@ && failed_with(result, Error::HandlesExhausted),
            old(self)@.identity_listener && old(self)@.next_handshake_handle < usize::MAX ==> {
                &&& result == Ok::<HandshakeHandle, Error>(old(self)@.next_handshake_handle)
                &&& final(self)@ == old(self)@.with_identity_server(
                    IdentityServerView::initial(old(self)@.identity_service_id),
                )
            },
            old(self)@.handles_are_fresh() ==> final(self)@.handles_are_fresh(),
    {
        if !self.identity_listener {
            return Err(Error::IncorrectUsage);
        }
        if self.next_handshake_handle == usize::MAX {
            return Err(Error::HandlesExhausted);
        }
        let server = IdentityServer::new(self.identity_service_id.clone());
        let handle = self.next_handshake_handle;
        self.identity_servers.insert(handle, server);
        self.next_handshake_handle = handle + 1;
        proof {
            assert(self@.identity_servers =~= old(self)@.identity_servers.insert(handle, server@));
            if old(self)@.handles_are_fresh() {
                lemma_fresh_grow(old(self)@, self@, 1);
            }
        }
        Ok(handle)
    }

    /// Begins to listen for handshakes on the endpoint
    /// `endpoint_service_id`, which goes by `endpoint_name` and was
    /// granted to `client_identity`. The driver has bound the listener.
    /// An endpoint that was listened for under the same service id is
    /// replaced. Fails with `NotBootstrapped` while the transport is not
    /// ready.
    pub fn endpoint_server_start(
        &mut self,
        endpoint_service_id: GoslingV3OnionServiceId,
        endpoint_name: String,
        client_identity: GoslingV3OnionServiceId,
    ) -> (result: Result<(), Error>)
        ensures
            !old(self)@.bootstrap_complete ==> final(self)@ == old(self)@ && failed_with(
                result,
                Error::NotBootstrapped,
            ),
            old(self)@.bootstrap_complete ==> result is Ok && final(self)@ == (ContextView {
                endpoint_listeners: old(self)@.endpoint_listeners.insert(
                    endpoint_service_id@,
                    (EndpointListenerView { endpoint_name: endpoint_name@, allowed_client: client_identity@ }),
                ),
                ..old(self)@
            }),
    {
        if !self.bootstrap_complete {
            return Err(Error::NotBootstrapped);
        }
        self.endpoint_listeners.insert(endpoint_service_id, endpoint_name, client_identity);
        Ok(())
    }

    /// Stops listening on the endpoint `endpoint_identity`. Fails with
    /// `NotBootstrapped` while the transport is not ready, and with
    /// `UnknownHandle` where that endpoint is not listened for.
    pub fn endpoint_server_stop(
        &mut self,
        endpoint_identity: &GoslingV3OnionServiceId,
    ) -> (result: Result<(), Error>)
        ensures
            !old(self)@.bootstrap_complete ==> final(self)@ == old(self)@ && failed_with(
                result,
                Error::NotBootstrapped,
            ),
            old(self)@.bootstrap_complete && !old(self)@.endpoint_listeners.contains_key(endpoint_identity@)
                ==> final(self)@ == old(self)@ && failed_with(result, Error::UnknownHandle),
            old(self)@.bootstrap_complete && old(self)@.endpoint_listeners.contains_key(endpoint_identity@)
                ==> result is Ok && final(self)@ == (ContextView {
                endpoint_listeners: old(self)@.endpoint_listeners.remove(endpoint_identity@),
                ..old(self)@
            }),
    {
        if !self.bootstrap_complete {
            return Err(Error::NotBootstrapped);
        }
        if self.endpoint_listeners.remove(endpoint_identity) {
            Ok(())
        } else {
            proof {
                assert(old(self)@.endpoint_listeners.remove(endpoint_identity@) =~= old(self)@.endpoint_listeners);
            }
            Err(Error::UnknownHandle)
        }
    }

    /// The application has no say on the channel that a client asks for:
    /// every channel is taken as valid. This call is refused with
    /// `IncorrectUsage`, whatever the handle.
    pub fn endpoint_server_handle_channel_request_received(
        &mut self,
        handle: HandshakeHandle,
        channel_supported: bool,
    ) -> (result: Result<(), Error>)
        ensures
            final(self)@ == old(self)@,
            failed_with(result, Error::IncorrectUsage),
    {
        Err(Error::IncorrectUsage)
    }

    /// The handles of the outbound identity handshakes in flight, in
    /// ascending order.
    pub fn identity_client_handles(&self) -> (handles: Vec<HandshakeHandle>)
        ensures
            forall|i: int, j: int| 0 <= i < j < handles@.len() ==> handles@[i] < handles@[j],
            forall|handle: HandshakeHandle|
                handles@.contains(handle) <==> self@.identity_clients.contains_key(handle),
    {
        self.identity_clients.handles()
    }

    /// The handles of the inbound identity handshakes in flight, in
    /// ascending order.
    pub fn identity_server_handles(&self) -> (handles: Vec<HandshakeHandle>)
        ensures
            forall|i: int, j: int| 0 <= i < j < handles@.len() ==> handles@[i] < handles@[j],
            forall|handle: HandshakeHandle|
                handles@.contains(handle) <==> self@.identity_servers.contains_key(handle),
    {
        self.identity_servers.handles()
    }

    /// The handles of the outbound endpoint handshakes in flight, in
    /// ascending order.
    pub fn endpoint_client_handles(&self) -> (handles: Vec<HandshakeHandle>)
        ensures
            forall|i: int, j: int| 0 <= i < j < handles@.len() ==> handles@[i] < handles@[j],
            forall|handle: HandshakeHandle|
                handles@.contains(handle) <==> self@.endpoint_clients.contains_key(handle),
    {
        self.endpoint_clients.handles()
    }

    /// The handles of the inbound endpoint handshakes in flight, in
    /// ascending order.
    pub fn endpoint_server_handles(&self) -> (handles: Vec<HandshakeHandle>)
        ensures
            forall|i: int, j: int| 0 <= i < j < handles@.len() ==> handles@[i] < handles@[j],
            forall|handle: HandshakeHandle|
                handles@.contains(handle) <==> self@.endpoint_servers.contains_key(handle),
    {
        self.endpoint_servers.handles()
    }

    /// Hands the application's answer to a challenge to the outbound
    /// identity handshake `handle`. Fails with `UnknownHandle` where none
    /// goes by `handle`, and with `IncorrectUsage` where the handshake
    /// does not wait for that answer; the handshake is then left as it
    /// was.
    pub fn identity_client_handle_challenge_received(
        &mut self,
        handle: HandshakeHandle,
        challenge_response: bson::Document,
    ) -> (result: Result<(), Error>)
        ensures
            !old(self)@.identity_clients.contains_key(handle) ==> final(self)@ == old(self)@ && failed_with(
                result,
                Error::UnknownHandle,
            ),
            old(self)@.identity_clients.contains_key(handle) ==> match old(self)@.identity_clients[handle].after_send_response(
                challenge_response,
            ) {
                Ok(next) => result is Ok && final(self)@ == old(self)@.with_identity_client_at(handle, next),
                Err(error) => final(self)@ == old(self)@ && failed_with(result, error),
            },
    {
        let mut client = match self.identity_clients.remove(handle) {
            Some(client) => client,
            None => {
                proof {
                    assert(self@.identity_clients =~= old(self)@.identity_clients);
                }
                return Err(Error::UnknownHandle);
            },
        };
        let result = client.send_response(challenge_response);
        self.identity_clients.insert(handle, client);
        proof {
            assert(self@.identity_clients =~= old(self)@.identity_clients.insert(handle, client@));
            if result is Err {
                assert(self@.identity_clients =~= old(self)@.identity_clients);
            }
        }
        result
    }

    /// Hands the application's answer to an endpoint request to the
    /// inbound identity handshake `handle`, with the server cookie
    /// `drawn` for the handshake. Fails with `UnknownHandle` where none
    /// goes by `handle`, and as `IdentityServer::send_challenge_with_cookie`
    /// does; the handshake is then left as it was.
    pub fn identity_server_handle_endpoint_request_received_with_cookie(
        &mut self,
        handle: HandshakeHandle,
        client_allowed: bool,
        endpoint_supported: bool,
        endpoint_challenge: bson::Document,
        drawn: Option<ServerCookie>,
    ) -> (result: Result<(), Error>)
        ensures
            !old(self)@.identity_servers.contains_key(handle) ==> final(self)@ == old(self)@ && failed_with(
                result,
                Error::UnknownHandle,
            ),
            old(self)@.identity_servers.contains_key(handle) ==> match old(self)@.identity_servers[handle].after_send_challenge(
                client_allowed,
                endpoint_supported,
                endpoint_challenge,
                cookie_bytes(drawn),
            ) {
                Ok(next) => result is Ok && final(self)@ == old(self)@.with_identity_server_at(handle, next),
                Err(error) => final(self)@ == old(self)@ && failed_with(result, error),
            },
    {
        let mut server = match self.identity_servers.remove(handle) {
            Some(server) => server,
            None => {
                proof {
                    assert(self@.identity_servers =~= old(self)@.identity_servers);
                }
                return Err(Error::UnknownHandle);
            },
        };
        let result = server.send_challenge_with_cookie(client_allowed, endpoint_supported, endpoint_challenge, drawn);
        self.identity_servers.insert(handle, server);
        proof {
            assert(self@.identity_servers =~= old(self)@.identity_servers.insert(handle, server@));
            if result is Err {
                assert(self@.identity_servers =~= old(self)@.identity_servers);
            }
        }
        result
    }

    /// Hands the application's answer to an endpoint request to the
    /// inbound identity handshake `handle`: whether the client is
    /// allowed, whether the endpoint it asked for is one that is served,
    /// and the challenge to send. The server cookie is drawn from the
    /// operating system.
    pub fn identity_server_handle_endpoint_request_received(
        &mut self,
        handle: HandshakeHandle,
        client_allowed: bool,
        endpoint_supported: bool,
        endpoint_challenge: bson::Document,
    ) -> (result: Result<(), Error>)
        ensures
            !old(self)@.identity_servers.contains_key(handle) ==> final(self)@ == old(self)@ && failed_with(
                result,
                Error::UnknownHandle,
            ),
            old(self)@.identity_servers.contains_key(handle) ==> exists|drawn: Option<Seq<u8>>|
                is_cookie_draw(drawn) && (match #[trigger] old(self)@.identity_servers[handle].after_send_challenge(
                    client_allowed,
                    endpoint_supported,
                    endpoint_challenge,
                    drawn,
                ) {
                    Ok(next) => result is Ok && final(self)@ == old(self)@.with_identity_server_at(handle, next),
                    Err(error) => final(self)@ == old(self)@ && failed_with(result, error),
                }),
    {
        let drawn = draw_cookie();
        proof {
            lemma_cookie_draw(drawn);
        }
        let result = self.identity_server_handle_endpoint_request_received_with_cookie(
            handle,
            client_allowed,
            endpoint_supported,
            endpoint_challenge,
            drawn,
        );
        proof {
            if old(self)@.identity_servers.contains_key(handle) {
                assert(match old(self)@.identity_servers[handle].after_send_challenge(
                    client_allowed,
                    endpoint_supported,
                    endpoint_challenge,
                    cookie_bytes(drawn),
                ) {
                    Ok(next) => result is Ok && self@ == old(self)@.with_identity_server_at(handle, next),
                    Err(error) => self@ == old(self)@ && failed_with(result, error),
                });
            }
        }
        result
    }

    /// Hands the application's verdict on a client's answer to the
    /// challenge to the inbound identity handshake `handle`. Fails with
    /// `UnknownHandle` where none goes by `handle`, and with
    /// `IncorrectUsage` where the handshake does not wait for that
    /// verdict; the handshake is then left as it was.
    pub fn identity_server_handle_challenge_response_received(
        &mut self,
        handle: HandshakeHandle,
        challenge_response_valid: bool,
    ) -> (result: Result<(), Error>)
        ensures
            !old(self)@.identity_servers.contains_key(handle) ==> final(self)@ == old(self)@ && failed_with(
                result,
                Error::UnknownHandle,
            ),
            old(self)@.identity_servers.contains_key(handle) ==> match old(self)@.identity_servers[handle].after_send_challenge_verification(
                challenge_response_valid,
            ) {
                Ok(next) => result is Ok && final(self)@ == old(self)@.with_identity_server_at(handle, next),
                Err(error) => final(self)@ == old(self)@ && failed_with(result, error),
            },
    {
        let mut server = match self.identity_servers.remove(handle) {
            Some(server) => server,
            None => {
                proof {
                    assert(self@.identity_servers =~= old(self)@.identity_servers);
                }
                return Err(Error::UnknownHandle);
            },
        };
        let result = server.send_challenge_verification(challenge_response_valid);
        self.identity_servers.insert(handle, server);
        proof {
            assert(self@.identity_servers =~= old(self)@.identity_servers.insert(handle, server@));
            if result is Err {
                assert(self@.identity_servers =~= old(self)@.identity_servers);
            }
        }
        result
    }

    /// Takes a connection that the listener of the endpoint
    /// `endpoint_service_id` accepted: a new inbound endpoint handshake
    /// for the client that the endpoint was granted to, with
    /// `drawn` as its server cookie. Gives the handle of the handshake.
    /// Fails with `UnknownHandle` where that endpoint is not listened
    /// for, with `HandlesExhausted`, and with `EntropyUnavailable` where
    /// no cookie could be drawn.
    pub fn endpoint_server_accept_with_cookie(
        &mut self,
        endpoint_service_id: GoslingV3OnionServiceId,
        drawn: Option<ServerCookie>,
    ) -> (result: Result<HandshakeHandle, Error>)
        ensures
            match old(self)@.accept_refusal(endpoint_service_id@, cookie_bytes(drawn)) {
                Some(error) => final(self)@ == old(self)@ && failed_with(result, error),
                None => {
                    &&& result == Ok::<HandshakeHandle, Error>(old(self)@.next_handshake_handle)
                    &&& final(self)@ == old(self)@.with_endpoint_server(
                        EndpointServerView::initial(
                            old(self)@.endpoint_listeners[endpoint_service_id@].allowed_client,
                            endpoint_service_id@,
                            cookie_bytes(drawn).unwrap(),
                        ),
                    )
                },
            },
            old(self)@.handles_are_fresh() ==> final(self)@.handles_are_fresh(),
    {
        let allowed_client = match self.endpoint_listeners.allowed_client(&endpoint_service_id) {
            Some(allowed_client) => allowed_client,
            None => {
                return Err(Error::UnknownHandle);
            },
        };
        if self.next_handshake_handle == usize::MAX {
            return Err(Error::HandlesExhausted);
        }
        let server_cookie = match drawn {
            Some(server_cookie) => server_cookie,
            None => {
                return Err(Error::EntropyUnavailable);
            },
        };
        let server = EndpointServer::with_server_cookie(allowed_client, endpoint_service_id, server_cookie);
        let handle = self.next_handshake_handle;
        self.endpoint_servers.insert(handle, server);
        self.next_handshake_handle = handle + 1;
        proof {
            assert(self@.endpoint_servers =~= old(self)@.endpoint_servers.insert(handle, server@));
            if old(self)@.handles_are_fresh() {
                lemma_fresh_grow(old(self)@, self@, 3);
            }
        }
        Ok(handle)
    }

    /// Takes a connection that the listener of the endpoint
    /// `endpoint_service_id` accepted. The server cookie of the new
    /// handshake is drawn from the operating system.
    pub fn endpoint_server_accept(
        &mut self,
        endpoint_service_id: GoslingV3OnionServiceId,
    ) -> (result: Result<HandshakeHandle, Error>)
        ensures
            exists|drawn: Option<Seq<u8>>|
                is_cookie_draw(drawn) && (match #[trigger] old(self)@.accept_refusal(endpoint_service_id@, drawn) {
                    Some(error) => final(self)@ == old(self)@ && failed_with(result, error),
                    None => {
                        &&& result == Ok::<HandshakeHandle, Error>(old(self)@.next_handshake_handle)
                        &&& final(self)@ == old(self)@.with_endpoint_server(
                            EndpointServerView::initial(
                                old(self)@.endpoint_listeners[endpoint_service_id@].allowed_client,
                                endpoint_service_id@,
                                drawn.unwrap(),
                            ),
                        )
                    },
                }),
            old(self)@.handles_are_fresh() ==> final(self)@.handles_are_fresh(),
    {
        let drawn = draw_cookie();
        proof {
            lemma_cookie_draw(drawn);
        }
        let result = self.endpoint_server_accept_with_cookie(endpoint_service_id, drawn);
        proof {
            assert(match old(self)@.accept_refusal(endpoint_service_id@, cookie_bytes(drawn)) {
                Some(error) => self@ == old(self)@ && failed_with(result, error),
                None => {
                    &&& result == Ok::<HandshakeHandle, Error>(old(self)@.next_handshake_handle)
                    &&& self@ == old(self)@.with_endpoint_server(
                        EndpointServerView::initial(
                            old(self)@.endpoint_listeners[endpoint_service_id@].allowed_client,
                            endpoint_service_id@,
                            cookie_bytes(drawn).unwrap(),
                        ),
                    )
                },
            });
        }
        result
    }

    /// One step of the outbound identity handshake `handle`, with the
    /// cookie `drawn` at hand for the step that needs one. Fails with
    /// `UnknownHandle` where none goes by `handle`.
    pub fn identity_client_advance(
        &mut self,
        handle: HandshakeHandle,
        input: IdentityClientInput,
        drawn: Option<ClientCookie>,
    ) -> (result: Result<IdentityClientStep, Error>)
        ensures
            !old(self)@.identity_clients.contains_key(handle) ==> final(self)@ == old(self)@ && failed_with(
                result,
                Error::UnknownHandle,
            ),
            old(self)@.identity_clients.contains_key(handle) ==> result is Ok
                && old(self)@.identity_client_stepped(
                handle,
                input,
                cookie_bytes(drawn),
                final(self)@,
                result.unwrap(),
            ),
            old(self)@.handles_are_fresh() ==> final(self)@.handles_are_fresh(),
    {
        let mut client = match self.identity_clients.remove(handle) {
            Some(client) => client,
            None => {
                proof {
                    assert(self@.identity_clients =~= old(self)@.identity_clients);
                }
                return Err(Error::UnknownHandle);
            },
        };
        proof {
            assert(self@.identity_clients =~= old(self)@.identity_clients.remove(handle));
            if old(self)@.handles_are_fresh() {
                lemma_fresh_shrink(old(self)@, self@);
            }
        }
        let ghost removed = self@;
        let step = match client.advance(input, drawn) {
            Ok(IdentityClientOutput::Idle) => IdentityClientStep::Idle,
            Ok(IdentityClientOutput::Call(call)) => IdentityClientStep::Call(call),
            Ok(IdentityClientOutput::PollResponse) => IdentityClientStep::PollResponse,
            Ok(IdentityClientOutput::Sign(request)) => IdentityClientStep::Sign(request),
            Ok(
                IdentityClientOutput::Event(
                    IdentityClientEvent::ChallengeReceived { identity_service_id, endpoint_name, endpoint_challenge },
                ),
            ) => IdentityClientStep::Event(
                ContextEvent::IdentityClientChallengeReceived {
                    handle,
                    identity_service_id,
                    endpoint_name,
                    endpoint_challenge,
                },
            ),
            Ok(
                IdentityClientOutput::Event(
                    IdentityClientEvent::HandshakeCompleted {
                        identity_service_id,
                        endpoint_service_id,
                        endpoint_name,
                        client_auth_private_key,
                    },
                ),
            ) => IdentityClientStep::Event(
                ContextEvent::IdentityClientHandshakeCompleted {
                    handle,
                    identity_service_id,
                    endpoint_service_id,
                    endpoint_name,
                    client_auth_private_key,
                },
            ),
            Err(error) => {
                return Ok(
                    IdentityClientStep::Event(ContextEvent::IdentityClientHandshakeFailed { handle, reason: error }),
                );
            },
        };
        if !client.is_complete() {
            self.identity_clients.insert(handle, client);
            proof {
                assert(self@.identity_clients =~= old(self)@.identity_clients.insert(handle, client@));
                if old(self)@.handles_are_fresh() {
                    lemma_fresh_shrink(old(self)@, self@);
                }
            }
        }
        Ok(step)
    }

    /// One step of the outbound identity handshake `handle`. The step
    /// that sends the answer to the challenge draws its client cookie
    /// from the operating system.
    pub fn identity_client_update(
        &mut self,
        handle: HandshakeHandle,
        input: IdentityClientInput,
    ) -> (result: Result<IdentityClientStep, Error>)
        ensures
            !old(self)@.identity_clients.contains_key(handle) ==> final(self)@ == old(self)@ && failed_with(
                result,
                Error::UnknownHandle,
            ),
            old(self)@.identity_clients.contains_key(handle) ==> result is Ok && exists|drawn: Option<Seq<u8>>|
                is_cookie_draw(drawn) && #[trigger] old(self)@.identity_client_stepped(
                    handle,
                    input,
                    drawn,
                    final(self)@,
                    result.unwrap(),
                ),
            old(self)@.handles_are_fresh() ==> final(self)@.handles_are_fresh(),
    {
        let draws = match self.identity_clients.get(handle) {
            Some(client) => client.draws_cookie(&input),
            None => false,
        };
        let drawn = if draws {
            draw_cookie()
        } else {
            None
        };
        let result = self.identity_client_advance(handle, input, drawn);
        proof {
            lemma_cookie_draw(drawn);
            if old(self)@.identity_clients.contains_key(handle) {
                assert(old(self)@.identity_client_stepped(handle, input, cookie_bytes(drawn), self@, result.unwrap()));
            }
        }
        result
    }

    /// One step of the outbound endpoint handshake `handle`, with the
    /// cookie `drawn` at hand for the step that needs one. Fails with
    /// `UnknownHandle` where none goes by `handle`.
    pub fn endpoint_client_advance(
        &mut self,
        handle: HandshakeHandle,
        input: EndpointClientInput,
        drawn: Option<ClientCookie>,
    ) -> (result: Result<EndpointClientStep, Error>)
        ensures
            !old(self)@.endpoint_clients.contains_key(handle) ==> final(self)@ == old(self)@ && failed_with(
                result,
                Error::UnknownHandle,
            ),
            old(self)@.endpoint_clients.contains_key(handle) ==> result is Ok
                && old(self)@.endpoint_client_stepped(
                handle,
                input,
                cookie_bytes(drawn),
                final(self)@,
                result.unwrap(),
            ),
            old(self)@.handles_are_fresh() ==> final(self)@.handles_are_fresh(),
    {
        let mut client = match self.endpoint_clients.remove(handle) {
            Some(client) => client,
            None => {
                proof {
                    assert(self@.endpoint_clients =~= old(self)@.endpoint_clients);
                }
                return Err(Error::UnknownHandle);
            },
        };
        proof {
            assert(self@.endpoint_clients =~= old(self)@.endpoint_clients.remove(handle));
            if old(self)@.handles_are_fresh() {
                lemma_fresh_shrink(old(self)@, self@);
            }
        }
        let ghost before = client@;
        let advanced = client.advance(input, drawn);
        let step = match advanced {
            Ok(EndpointClientOutput::Idle) => EndpointClientStep::Idle,
            Ok(EndpointClientOutput::Call(call)) => EndpointClientStep::Call(call),
            Ok(EndpointClientOutput::PollResponse) => EndpointClientStep::PollResponse,
            Ok(EndpointClientOutput::Sign { client_proof }) => EndpointClientStep::Sign { client_proof },
            Ok(EndpointClientOutput::Event(EndpointClientEvent::HandshakeCompleted)) => EndpointClientStep::Event(
                ContextEvent::EndpointClientHandshakeCompleted {
                    handle,
                    endpoint_service_id: client.server_service_id().clone(),
                    channel_name: client.requested_channel().to_owned(),
                },
            ),
            Err(error) => {
                return Ok(
                    EndpointClientStep::Event(ContextEvent::EndpointClientHandshakeFailed { handle, reason: error }),
                );
            },
        };
        proof {
            assert(before.emits(input, client@, advanced.unwrap()));
            assert(raises_endpoint_client_step(step, handle, before, advanced.unwrap()));
        }
        let complete = match client.state() {
            crate::endpoint_client::EndpointClientState::HandshakeComplete => true,
            _ => false,
        };
        if !complete {
            self.endpoint_clients.insert(handle, client);
            proof {
                assert(self@.endpoint_clients =~= old(self)@.endpoint_clients.insert(handle, client@));
                if old(self)@.handles_are_fresh() {
                    lemma_fresh_shrink(old(self)@, self@);
                }
            }
        }
        Ok(step)
    }

    /// One step of the outbound endpoint handshake `handle`. The step
    /// that takes the server's cookie draws the client cookie from the
    /// operating system.
    pub fn endpoint_client_update(
        &mut self,
        handle: HandshakeHandle,
        input: EndpointClientInput,
    ) -> (result: Result<EndpointClientStep, Error>)
        ensures
            !old(self)@.endpoint_clients.contains_key(handle) ==> final(self)@ == old(self)@ && failed_with(
                result,
                Error::UnknownHandle,
            ),
            old(self)@.endpoint_clients.contains_key(handle) ==> result is Ok && exists|drawn: Option<Seq<u8>>|
                is_cookie_draw(drawn) && #[trigger] old(self)@.endpoint_client_stepped(
                    handle,
                    input,
                    drawn,
                    final(self)@,
                    result.unwrap(),
                ),
            old(self)@.handles_are_fresh() ==> final(self)@.handles_are_fresh(),
    {
        let draws = match self.endpoint_clients.get(handle) {
            Some(client) => client.draws_cookie(&input),
            None => false,
        };
        let drawn = if draws {
            draw_cookie()
        } else {
            None
        };
        let result = self.endpoint_client_advance(handle, input, drawn);
        proof {
            lemma_cookie_draw(drawn);
            if old(self)@.endpoint_clients.contains_key(handle) {
                assert(old(self)@.endpoint_client_stepped(handle, input, cookie_bytes(drawn), self@, result.unwrap()));
            }
        }
        result
    }

    /// Takes one report of the transport. The report that the transport
    /// is ready lets handshakes begin.
    pub fn handle_tor_event(&mut self, event: TorEvent) -> (announced: Option<ContextEvent>)
        ensures
            final(self)@ == (ContextView {
                bootstrap_complete: old(self)@.bootstrap_complete || event is BootstrapComplete,
                ..old(self)@
            }),
            old(self)@.tor_event_announced(event, announced),
            announced is Some <==> old(self)@.announces_tor_event(event),
    {
        match event {
            TorEvent::BootstrapStatus { progress, tag, summary } => Some(
                ContextEvent::TorBootstrapStatusReceived { progress, tag, summary },
            ),
            TorEvent::BootstrapComplete => {
                self.bootstrap_complete = true;
                Some(ContextEvent::TorBootstrapCompleted)
            },
            TorEvent::LogReceived { line } => Some(ContextEvent::TorLogReceived { line }),
            TorEvent::OnionServicePublished { service_id } => {
                if service_id.same(&self.identity_service_id) {
                    Some(ContextEvent::IdentityServerPublished)
                } else {
                    match self.endpoint_listeners.endpoint_name(&service_id) {
                        Some(endpoint_name) => Some(
                            ContextEvent::EndpointServerPublished { endpoint_service_id: service_id, endpoint_name },
                        ),
                        None => None,
                    }
                }
            },
        }
    }

    /// The order in which a tick steps the handshakes in flight.
    pub fn schedule(&self) -> (schedule: Vec<(HandshakeKind, HandshakeHandle)>)
        ensures
            self@.is_schedule(schedule@),
    {
        let identity_clients = self.identity_clients.handles();
        let identity_servers = self.identity_servers.handles();
        let endpoint_clients = self.endpoint_clients.handles();
        let endpoint_servers = self.endpoint_servers.handles();
        let mut schedule: Vec<(HandshakeKind, HandshakeHandle)> = Vec::new();
        schedule_kind(&mut schedule, HandshakeKind::IdentityClient, &identity_clients);
        schedule_kind(&mut schedule, HandshakeKind::IdentityServer, &identity_servers);
        schedule_kind(&mut schedule, HandshakeKind::EndpointClient, &endpoint_clients);
        schedule_kind(&mut schedule, HandshakeKind::EndpointServer, &endpoint_servers);
        proof {
            let a = of_kind(HandshakeKind::IdentityClient, identity_clients@);
            let b = of_kind(HandshakeKind::IdentityServer, identity_servers@);
            let c = of_kind(HandshakeKind::EndpointClient, endpoint_clients@);
            let d = of_kind(HandshakeKind::EndpointServer, endpoint_servers@);
            let all = schedule@;
            assert(all =~= a + b + c + d);
            assert forall|i: int, j: int| 0 <= i < j < all.len() implies steps_before(
                #[trigger] all[i],
                #[trigger] all[j],
            ) by {
                lemma_scheduled_at(a, b, c, d, i);
                lemma_scheduled_at(a, b, c, d, j);
            }
            assert forall|kind: HandshakeKind, handle: HandshakeHandle|
                all.contains((kind, handle)) <==> self@.holds(kind, handle) by {
                if all.contains((kind, handle)) {
                    let i = choose|i: int| 0 <= i < all.len() && all[i] == (kind, handle);
                    lemma_scheduled_at(a, b, c, d, i);
                    if i < a.len() {
                        assert(identity_clients@[i] == handle);
                        assert(identity_clients@.contains(handle));
                    } else if i < a.len() + b.len() {
                        assert(identity_servers@[i - a.len()] == handle);
                        assert(identity_servers@.contains(handle));
                    } else if i < a.len() + b.len() + c.len() {
                        assert(endpoint_clients@[i - a.len() - b.len()] == handle);
                        assert(endpoint_clients@.contains(handle));
                    } else {
                        assert(endpoint_servers@[i - a.len() - b.len() - c.len()] == handle);
                        assert(endpoint_servers@.contains(handle));
                    }
                }
                if self@.holds(kind, handle) {
                    match kind {
                        HandshakeKind::IdentityClient => {
                            assert(identity_clients@.contains(handle));
                            let k = choose|k: int| 0 <= k < identity_clients@.len() && identity_clients@[k] == handle;
                            lemma_scheduled_at(a, b, c, d, k);
                            assert(all[k] == (kind, handle));
                        },
                        HandshakeKind::IdentityServer => {
                            assert(identity_servers@.contains(handle));
                            let k = choose|k: int| 0 <= k < identity_servers@.len() && identity_servers@[k] == handle;
                            lemma_scheduled_at(a, b, c, d, a.len() + k);
                            assert(all[a.len() + k] == (kind, handle));
                        },
                        HandshakeKind::EndpointClient => {
                            assert(endpoint_clients@.contains(handle));
                            let k = choose|k: int| 0 <= k < endpoint_clients@.len() && endpoint_clients@[k] == handle;
                            lemma_scheduled_at(a, b, c, d, a.len() + b.len() + k);
                            assert(all[a.len() + b.len() + k] == (kind, handle));
                        },
                        HandshakeKind::EndpointServer => {
                            assert(endpoint_servers@.contains(handle));
                            let k = choose|k: int| 0 <= k < endpoint_servers@.len() && endpoint_servers@[k] == handle;
                            lemma_scheduled_at(a, b, c, d, a.len() + b.len() + c.len() + k);
                            assert(all[a.len() + b.len() + c.len() + k] == (kind, handle));
                        },
                    }
                }
            }
        }
        schedule
    }

    /// The beginning of a tick, after the driver has handed over the
    /// connections that the listeners accepted. Takes the reports that
    /// the transport has made since the last tick, and gives the events
    /// that they are announced as, in the order of the reports; and gives
    /// the order in which the handshakes in flight are then stepped, the
    /// handshakes of the connections just accepted among them. The events
    /// of the tick are the events given here, followed by the events of
    /// the steps in that order.
    pub fn update(&mut self, tor_events: Vec<TorEvent>) -> (tick: ContextUpdate)
        ensures
            final(self)@ == (ContextView {
                bootstrap_complete: old(self)@.bootstrap_complete || ContextView::reports_bootstrap(tor_events@),
                ..old(self)@
            }),
            old(self)@.tor_events_announced(tor_events@, tick.events@),
            final(self)@.is_schedule(tick.schedule@),
    {
        let events = self.handle_tor_events(tor_events);
        let schedule = self.schedule();
        ContextUpdate { events, schedule }
    }

    /// Takes the reports that the transport has made since the last
    /// tick, and gives the events that they are announced as, in the
    /// order of the reports.
    pub fn handle_tor_events(&mut self, tor_events: Vec<TorEvent>) -> (events: Vec<ContextEvent>)
        ensures
            final(self)@ == (ContextView {
                bootstrap_complete: old(self)@.bootstrap_complete || ContextView::reports_bootstrap(tor_events@),
                ..old(self)@
            }),
            old(self)@.tor_events_announced(tor_events@, events@),
    {
        let mut remaining = tor_events;
        let mut events: Vec<ContextEvent> = Vec::new();
        let ghost total = tor_events@.len() as int;
        assert(tor_events@.subrange(total, total) =~= Seq::<TorEvent>::empty());
        while remaining.len() > 0
            invariant
                total == tor_events@.len(),
                remaining@.len() <= total,
                remaining@ == tor_events@.subrange(0, remaining@.len() as int),
                self@ == (ContextView {
                    bootstrap_complete: old(self)@.bootstrap_complete || ContextView::reports_bootstrap(
                        tor_events@.subrange(remaining@.len() as int, total),
                    ),
                    ..old(self)@
                }),
                old(self)@.tor_events_announced(tor_events@.subrange(remaining@.len() as int, total), events@),
            decreases remaining@.len(),
        {
            let ghost before = remaining@.len() as int;
            let ghost view_before = self@;
            let ghost events_before = events@;
            let event = remaining.pop().unwrap();
            let announced = self.handle_tor_event(event);
            proof {
                let suffix = tor_events@.subrange(before, total);
                let longer = tor_events@.subrange(before - 1, total);
                assert(event == tor_events@[before - 1]);
                assert(longer[0] == event);
                assert(longer.drop_first() =~= suffix);
                assert(remaining@ =~= tor_events@.subrange(0, before - 1));
                assert(ContextView::reports_bootstrap(longer) == (event is BootstrapComplete
                    || ContextView::reports_bootstrap(suffix))) by {
                    if ContextView::reports_bootstrap(suffix) {
                        let i = choose|i: int| 0 <= i < suffix.len() && (#[trigger] suffix[i]) is BootstrapComplete;
                        assert(longer[i + 1] == suffix[i]);
                    }
                    if ContextView::reports_bootstrap(longer) {
                        let i = choose|i: int| 0 <= i < longer.len() && (#[trigger] longer[i]) is BootstrapComplete;
                        if i > 0 {
                            assert(suffix[i - 1] == longer[i]);
                        }
                    }
                    if event is BootstrapComplete {
                        assert(longer[0] is BootstrapComplete);
                    }
                }
                assert(view_before.tor_event_announced(event, announced) == old(self)@.tor_event_announced(
                    event,
                    announced,
                ));
                assert(view_before.announces_tor_event(event) == old(self)@.announces_tor_event(event));
            }
            match announced {
                Some(announced) => {
                    events.insert(0, announced);
                    proof {
                        assert(events@.drop_first() =~= events_before);
                        assert(events@[0] == announced);
                    }
                },
                None => {},
            }
        }
        proof {
            assert(remaining@.len() == 0);
            assert(tor_events@.subrange(0, total) =~= tor_events@);
        }
        events
    }

    /// A tick of the inbound identity handshake `handle`, after the
    /// driver has let the RPC session of the handshake run; `rpc_failed`
    /// says whether the session failed. Fails with `UnknownHandle` where
    /// none goes by `handle`.
    pub fn identity_server_update(
        &mut self,
        handle: HandshakeHandle,
        rpc_failed: bool,
    ) -> (result: Result<Option<ContextEvent>, Error>)
        ensures
            !old(self)@.identity_servers.contains_key(handle) ==> final(self)@ == old(self)@ && failed_with(
                result,
                Error::UnknownHandle,
            ),
            old(self)@.identity_servers.contains_key(handle) ==> result is Ok
                && old(self)@.identity_server_ticked(handle, rpc_failed, final(self)@, result.unwrap()),
            old(self)@.handles_are_fresh() ==> final(self)@.handles_are_fresh(),
    {
        let mut server = match self.identity_servers.remove(handle) {
            Some(server) => server,
            None => {
                proof {
                    assert(self@.identity_servers =~= old(self)@.identity_servers);
                }
                return Err(Error::UnknownHandle);
            },
        };
        proof {
            assert(self@.identity_servers =~= old(self)@.identity_servers.remove(handle));
            if old(self)@.handles_are_fresh() {
                lemma_fresh_shrink(old(self)@, self@);
            }
        }
        if rpc_failed {
            return Ok(
                Some(ContextEvent::IdentityServerHandshakeFailed { handle, reason: Error::RpcTransport }),
            );
        }
        let event = match server.update() {
            Some(IdentityServerEvent::EndpointRequestReceived { client_service_id, requested_endpoint }) => Some(
                ContextEvent::IdentityServerEndpointRequestReceived { handle, client_service_id, requested_endpoint },
            ),
            Some(IdentityServerEvent::ChallengeResponseReceived { challenge_response }) => Some(
                ContextEvent::IdentityServerChallengeResponseReceived { handle, challenge_response },
            ),
            Some(
                IdentityServerEvent::HandshakeCompleted {
                    endpoint_private_key,
                    endpoint_name,
                    client_service_id,
                    client_auth_public_key,
                },
            ) => Some(
                ContextEvent::IdentityServerHandshakeCompleted {
                    handle,
                    endpoint_private_key,
                    endpoint_name,
                    client_service_id,
                    client_auth_public_key,
                },
            ),
            Some(
                IdentityServerEvent::HandshakeRejected {
                    client_allowed,
                    client_requested_endpoint_valid,
                    client_proof_signature_valid,
                    client_auth_signature_valid,
                    challenge_response_valid,
                },
            ) => Some(
                ContextEvent::IdentityServerHandshakeRejected {
                    handle,
                    client_allowed,
                    client_requested_endpoint_valid,
                    client_proof_signature_valid,
                    client_auth_signature_valid,
                    challenge_response_valid,
                },
            ),
            None => None,
        };
        let complete = match server.state() {
            crate::identity_server::IdentityServerState::HandshakeComplete => true,
            _ => false,
        };
        if !complete {
            self.identity_servers.insert(handle, server);
            proof {
                assert(self@.identity_servers =~= old(self)@.identity_servers.insert(handle, server@));
                if old(self)@.handles_are_fresh() {
                    lemma_fresh_shrink(old(self)@, self@);
                }
            }
        }
        Ok(event)
    }

    /// Hands a call of the RPC session to the inbound identity handshake
    /// `handle`. Fails with `UnknownHandle` where none goes by `handle`;
    /// otherwise gives what `IdentityServer::exec_function` gives.
    pub fn identity_server_exec_function(
        &mut self,
        handle: HandshakeHandle,
        name: &str,
        version: i32,
        arguments: bson::Document,
        request_cookie: Option<RequestCookie>,
    ) -> (result: Result<Result<IdentityServerExec, GoslingError>, Error>)
        ensures
            !old(self)@.identity_servers.contains_key(handle) ==> final(self)@ == old(self)@ && failed_with(
                result,
                Error::UnknownHandle,
            ),
            old(self)@.identity_servers.contains_key(handle) ==> result is Ok && match old(self)@.identity_servers[handle].after_call(
                name@,
                version,
                arguments,
                request_cookie,
            ) {
                Ok(next) => {
                    &&& final(self)@ == old(self)@.with_identity_server_at(handle, next)
                    &&& result.unwrap() matches Ok(answer)
                    &&& old(self)@.identity_servers[handle].answers(name@, arguments, answer)
                },
                Err(error) => final(self)@ == old(self)@ && failed_with(result.unwrap(), error),
            },
    {
        let mut server = match self.identity_servers.remove(handle) {
            Some(server) => server,
            None => {
                proof {
                    assert(self@.identity_servers =~= old(self)@.identity_servers);
                }
                return Err(Error::UnknownHandle);
            },
        };
        let result = server.exec_function(name, version, arguments, request_cookie);
        self.identity_servers.insert(handle, server);
        proof {
            assert(self@.identity_servers =~= old(self)@.identity_servers.insert(handle, server@));
            if result is Err {
                assert(self@.identity_servers =~= old(self)@.identity_servers);
            }
        }
        Ok(result)
    }

    /// Hands the driver's verdict on the signatures of a `send_response`
    /// call to the inbound identity handshake `handle`. Fails with
    /// `UnknownHandle` where none goes by `handle`; otherwise gives what
    /// `IdentityServer::handle_signature_verification` gives.
    pub fn identity_server_handle_signature_verification(
        &mut self,
        handle: HandshakeHandle,
        proof_signature_valid: bool,
        auth_signature_valid: bool,
    ) -> (result: Result<Result<(), GoslingError>, Error>)
        ensures
            !old(self)@.identity_servers.contains_key(handle) ==> final(self)@ == old(self)@ && failed_with(
                result,
                Error::UnknownHandle,
            ),
            old(self)@.identity_servers.contains_key(handle) ==> result is Ok && match old(self)@.identity_servers[handle].after_signature_verdict(
                proof_signature_valid,
                auth_signature_valid,
            ) {
                Ok(next) => final(self)@ == old(self)@.with_identity_server_at(handle, next) && result.unwrap()
                    is Ok,
                Err(error) => final(self)@ == old(self)@ && failed_with(result.unwrap(), error),
            },
    {
        let mut server = match self.identity_servers.remove(handle) {
            Some(server) => server,
            None => {
                proof {
                    assert(self@.identity_servers =~= old(self)@.identity_servers);
                }
                return Err(Error::UnknownHandle);
            },
        };
        let result = server.handle_signature_verification(proof_signature_valid, auth_signature_valid);
        self.identity_servers.insert(handle, server);
        proof {
            assert(self@.identity_servers =~= old(self)@.identity_servers.insert(handle, server@));
            if result is Err {
                assert(self@.identity_servers =~= old(self)@.identity_servers);
            }
        }
        Ok(result)
    }

    /// Asks the inbound identity handshake `handle` what it has for the
    /// RPC session to send. Fails with `UnknownHandle` where none goes by
    /// `handle`; otherwise gives what `IdentityServer::next_result`
    /// gives.
    pub fn identity_server_next_result(
        &mut self,
        handle: HandshakeHandle,
    ) -> (result: Result<IdentityServerResult, Error>)
        ensures
            !old(self)@.identity_servers.contains_key(handle) ==> final(self)@ == old(self)@ && failed_with(
                result,
                Error::UnknownHandle,
            ),
            old(self)@.identity_servers.contains_key(handle) ==> {
                &&& result is Ok
                &&& final(self)@ == old(self)@.with_identity_server_at(
                    handle,
                    old(self)@.identity_servers[handle].after_next_result(),
                )
                &&& old(self)@.identity_servers[handle].hands_out(result.unwrap())
            },
    {
        let mut server = match self.identity_servers.remove(handle) {
            Some(server) => server,
            None => {
                proof {
                    assert(self@.identity_servers =~= old(self)@.identity_servers);
                }
                return Err(Error::UnknownHandle);
            },
        };
        let result = server.next_result();
        self.identity_servers.insert(handle, server);
        proof {
            assert(self@.identity_servers =~= old(self)@.identity_servers.insert(handle, server@));
        }
        Ok(result)
    }

    /// Hands the key of the endpoint that is about to be granted to the
    /// inbound identity handshake `handle`. Fails with `UnknownHandle`
    /// where none goes by `handle`, and with `IncorrectUsage` where the
    /// handshake did not ask for the key.
    pub fn identity_server_handle_endpoint_key(
        &mut self,
        handle: HandshakeHandle,
        endpoint_private_key: GoslingEd25519PrivateKey,
        endpoint_service_id: GoslingV3OnionServiceId,
    ) -> (result: Result<(), Error>)
        ensures
            !old(self)@.identity_servers.contains_key(handle) ==> final(self)@ == old(self)@ && failed_with(
                result,
                Error::UnknownHandle,
            ),
            old(self)@.identity_servers.contains_key(handle) ==> match old(self)@.identity_servers[handle].after_endpoint_key(
                endpoint_private_key@,
                endpoint_service_id@,
            ) {
                Ok(next) => result is Ok && final(self)@ == old(self)@.with_identity_server_at(handle, next),
                Err(error) => final(self)@ == old(self)@ && failed_with(result, error),
            },
    {
        let mut server = match self.identity_servers.remove(handle) {
            Some(server) => server,
            None => {
                proof {
                    assert(self@.identity_servers =~= old(self)@.identity_servers);
                }
                return Err(Error::UnknownHandle);
            },
        };
        let result = server.handle_endpoint_key(endpoint_private_key, endpoint_service_id);
        self.identity_servers.insert(handle, server);
        proof {
            assert(self@.identity_servers =~= old(self)@.identity_servers.insert(handle, server@));
            if result is Err {
                assert(self@.identity_servers =~= old(self)@.identity_servers);
            }
        }
        result
    }

    /// A tick of the inbound endpoint handshake `handle`, after the
    /// driver has let the RPC session of the handshake run; `rpc_failed`
    /// says whether the session failed. Fails with `UnknownHandle` where
    /// none goes by `handle`.
    pub fn endpoint_server_update(
        &mut self,
        handle: HandshakeHandle,
        rpc_failed: bool,
    ) -> (result: Result<Option<ContextEvent>, Error>)
        ensures
            !old(self)@.endpoint_servers.contains_key(handle) ==> final(self)@ == old(self)@ && failed_with(
                result,
                Error::UnknownHandle,
            ),
            old(self)@.endpoint_servers.contains_key(handle) ==> result is Ok
                && old(self)@.endpoint_server_ticked(handle, rpc_failed, final(self)@, result.unwrap()),
            old(self)@.handles_are_fresh() ==> final(self)@.handles_are_fresh(),
    {
        let mut server = match self.endpoint_servers.remove(handle) {
            Some(server) => server,
            None => {
                proof {
                    assert(self@.endpoint_servers =~= old(self)@.endpoint_servers);
                }
                return Err(Error::UnknownHandle);
            },
        };
        proof {
            assert(self@.endpoint_servers =~= old(self)@.endpoint_servers.remove(handle));
            if old(self)@.handles_are_fresh() {
                lemma_fresh_shrink(old(self)@, self@);
            }
        }
        if rpc_failed {
            return Ok(
                Some(ContextEvent::EndpointServerHandshakeFailed { handle, reason: Error::RpcTransport }),
            );
        }
        let event = match server.update() {
            Ok(Some(EndpointServerEvent::ChannelRequestReceived { requested_channel })) => Some(
                ContextEvent::EndpointServerChannelRequestReceived {
                    handle,
                    endpoint_service_id: server.server_identity().clone(),
                    requested_channel,
                },
            ),
            Ok(Some(EndpointServerEvent::HandshakeCompleted { client_service_id, channel_name })) => Some(
                ContextEvent::EndpointServerHandshakeCompleted {
                    handle,
                    endpoint_service_id: server.server_identity().clone(),
                    client_service_id,
                    channel_name,
                },
            ),
            Ok(
                Some(
                    EndpointServerEvent::HandshakeRejected {
                        client_allowed,
                        client_requested_channel_valid,
                        client_proof_signature_valid,
                    },
                ),
            ) => Some(
                ContextEvent::EndpointServerHandshakeRejected {
                    handle,
                    client_allowed,
                    client_requested_channel_valid,
                    client_proof_signature_valid,
                },
            ),
            Ok(None) => None,
            Err(error) => {
                return Ok(Some(ContextEvent::EndpointServerHandshakeFailed { handle, reason: error }));
            },
        };
        let complete = match server.state() {
            crate::endpoint_server::EndpointServerState::HandshakeComplete => true,
            _ => false,
        };
        if !complete {
            self.endpoint_servers.insert(handle, server);
            proof {
                assert(self@.endpoint_servers =~= old(self)@.endpoint_servers.insert(handle, server@));
                if old(self)@.handles_are_fresh() {
                    lemma_fresh_shrink(old(self)@, self@);
                }
            }
        }
        Ok(event)
    }

    /// Hands a call of the RPC session to the inbound endpoint handshake
    /// `handle`. Fails with `UnknownHandle` where none goes by `handle`;
    /// otherwise gives what `EndpointServer::exec_function` gives.
    pub fn endpoint_server_exec_function(
        &mut self,
        handle: HandshakeHandle,
        name: &str,
        version: i32,
        arguments: bson::Document,
        request_cookie: Option<RequestCookie>,
    ) -> (result: Result<Result<EndpointServerExec, GoslingError>, Error>)
        ensures
            !old(self)@.endpoint_servers.contains_key(handle) ==> final(self)@ == old(self)@ && failed_with(
                result,
                Error::UnknownHandle,
            ),
            old(self)@.endpoint_servers.contains_key(handle) ==> result is Ok && match old(self)@.endpoint_servers[handle].after_call(
                name@,
                version,
                arguments,
                request_cookie,
            ) {
                Ok(next) => {
                    &&& final(self)@ == old(self)@.with_endpoint_server_at(handle, next)
                    &&& result.unwrap() matches Ok(answer)
                    &&& old(self)@.endpoint_servers[handle].answers(name@, version, arguments, answer)
                },
                Err(error) => final(self)@ == old(self)@ && failed_with(result.unwrap(), error),
            },
    {
        let mut server = match self.endpoint_servers.remove(handle) {
            Some(server) => server,
            None => {
                proof {
                    assert(self@.endpoint_servers =~= old(self)@.endpoint_servers);
                }
                return Err(Error::UnknownHandle);
            },
        };
        let result = server.exec_function(name, version, arguments, request_cookie);
        self.endpoint_servers.insert(handle, server);
        proof {
            assert(self@.endpoint_servers =~= old(self)@.endpoint_servers.insert(handle, server@));
            if result is Err {
                assert(self@.endpoint_servers =~= old(self)@.endpoint_servers);
            }
        }
        Ok(result)
    }

    /// Hands the driver's verdict on the signature of a `send_response`
    /// call to the inbound endpoint handshake `handle`, and gives the
    /// reply to that call. Fails with `UnknownHandle` where none goes by
    /// `handle`; otherwise gives what
    /// `EndpointServer::handle_signature_verification` gives.
    pub fn endpoint_server_handle_signature_verification(
        &mut self,
        handle: HandshakeHandle,
        proof_signature_valid: bool,
    ) -> (result: Result<Result<Value, GoslingError>, Error>)
        ensures
            !old(self)@.endpoint_servers.contains_key(handle) ==> final(self)@ == old(self)@ && failed_with(
                result,
                Error::UnknownHandle,
            ),
            old(self)@.endpoint_servers.contains_key(handle) ==> {
                &&& result is Ok
                &&& final(self)@ == old(self)@.with_endpoint_server_at(
                    handle,
                    old(self)@.endpoint_servers[handle].after_signature_verdict(proof_signature_valid),
                )
                &&& old(self)@.endpoint_servers[handle].replies(proof_signature_valid, result.unwrap())
            },
    {
        let mut server = match self.endpoint_servers.remove(handle) {
            Some(server) => server,
            None => {
                proof {
                    assert(self@.endpoint_servers =~= old(self)@.endpoint_servers);
                }
                return Err(Error::UnknownHandle);
            },
        };
        let result = server.handle_signature_verification(proof_signature_valid);
        self.endpoint_servers.insert(handle, server);
        proof {
            assert(self@.endpoint_servers =~= old(self)@.endpoint_servers.insert(handle, server@));
        }
        Ok(result)
    }
}

} // verus!
