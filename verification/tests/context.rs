use std::collections::VecDeque;

use bson::Document;
use gosling::context::{Context, ContextEvent, EndpointClientStep, HandshakeKind, IdentityClientStep, TorEvent};
use gosling::document::Value;
use gosling::endpoint_client::EndpointClientInput;
use gosling::endpoint_server::EndpointServerExec;
use gosling::error::{Error, GoslingError};
use gosling::identity_client::{IdentityClientInput, IdentityProofRequest, IdentityProofSignatures};
use gosling::identity_server::{IdentityServerExec, IdentityServerResult};
use gosling::keys::{GoslingEd25519PrivateKey, GoslingX25519PrivateKey, GoslingX25519PublicKey};
use gosling::rpc::{Call, RequestCookie, Response};
use gosling::service_id::GoslingV3OnionServiceId;
use gosling::table::HandshakeHandle;

const ALPHABET: &[u8; 32] = b"abcdefghijklmnopqrstuvwxyz234567";

fn service_id(seed: u8) -> GoslingV3OnionServiceId {
    let mut text = String::new();
    for i in 0..56usize {
        let index = (seed as usize * 7 + i * 11 + (i * i) % 5) % 32;
        text.push(ALPHABET[index] as char);
    }
    GoslingV3OnionServiceId::from_string(&text).unwrap()
}

/// Stands in for an ed25519 signature in these tests.
fn stand_in_signature(signer: &[u8], message: &[u8]) -> [u8; 64] {
    let mut state: u64 = 0xcbf2_9ce4_8422_2325;
    for byte in signer.iter().chain([0xffu8].iter()).chain(message.iter()) {
        state ^= *byte as u64;
        state = state.wrapping_mul(0x0000_0100_0000_01b3);
    }
    let mut signature = [0u8; 64];
    for (i, byte) in signature.iter_mut().enumerate() {
        state ^= i as u64;
        state = state.wrapping_mul(0x0000_0100_0000_01b3);
        *byte = (state >> 32) as u8;
    }
    signature
}

fn sign_identity_proof(signer: &GoslingV3OnionServiceId, request: &IdentityProofRequest) -> IdentityProofSignatures {
    let mut public = request.client_auth_private_key.to_bytes();
    public.reverse();
    IdentityProofSignatures {
        client_identity_proof_signature: stand_in_signature(signer.to_string().as_bytes(), &request.client_proof),
        client_authorization_key: GoslingX25519PublicKey::from_raw(&public),
        client_authorization_key_signbit: 0,
        client_authorization_signature: stand_in_signature(&public, request.client_identity.as_bytes()),
    }
}

fn context(seed: u8) -> Context {
    Context::new(420, 421, GoslingEd25519PrivateKey::from_raw(&[seed; 64]), service_id(seed))
}

fn bootstrapped(seed: u8) -> Context {
    let mut context = context(seed);
    let events = context.update(vec![TorEvent::BootstrapComplete]).events;
    assert!(matches!(events.as_slice(), [ContextEvent::TorBootstrapCompleted]));
    context
}

#[test]
fn context_begins_nothing_before_the_bootstrap() {
    let mut context = context(1);
    assert!(!context.bootstrap_complete());
    assert_eq!(context.identity_port(), 420);
    assert_eq!(context.endpoint_port(), 421);
    assert!(context.identity_service_id().same(&service_id(1)));
    assert_eq!(context.identity_private_key().to_bytes(), [1u8; 64]);
    assert_eq!(
        context.identity_client_begin_handshake(service_id(2), "endpoint", GoslingX25519PrivateKey::from_raw(&[9u8; 32])),
        Err(Error::NotBootstrapped)
    );
    assert_eq!(
        context.endpoint_client_begin_handshake(service_id(2), "channel".to_string()),
        Err(Error::NotBootstrapped)
    );
    assert_eq!(context.identity_server_start(), Err(Error::NotBootstrapped));
    assert_eq!(context.identity_server_stop(), Err(Error::NotBootstrapped));
    assert_eq!(
        context.endpoint_server_start(service_id(3), "endpoint".to_string(), service_id(2)),
        Err(Error::NotBootstrapped)
    );
    assert_eq!(context.endpoint_server_stop(&service_id(3)), Err(Error::NotBootstrapped));
    assert!(context.identity_client_handles().is_empty());
}

#[test]
fn context_announces_the_reports_of_the_transport_in_their_order() {
    let mut context = bootstrapped(1);
    context.endpoint_server_start(service_id(3), "test_endpoint".to_string(), service_id(2)).unwrap();
    let events = context.update(vec![
        TorEvent::BootstrapStatus { progress: 80, tag: "conn".to_string(), summary: "Connecting".to_string() },
        TorEvent::LogReceived { line: "a line".to_string() },
        TorEvent::OnionServicePublished { service_id: service_id(7) },
        TorEvent::OnionServicePublished { service_id: service_id(3) },
        TorEvent::OnionServicePublished { service_id: service_id(1) },
        TorEvent::BootstrapComplete,
    ])
    .events;
    assert_eq!(events.len(), 5);
    match &events[0] {
        ContextEvent::TorBootstrapStatusReceived { progress, tag, summary } => {
            assert_eq!(*progress, 80);
            assert_eq!(tag, "conn");
            assert_eq!(summary, "Connecting");
        }
        _ => panic!("the status comes first"),
    }
    match &events[1] {
        ContextEvent::TorLogReceived { line } => assert_eq!(line, "a line"),
        _ => panic!("the log line comes second"),
    }
    match &events[2] {
        ContextEvent::EndpointServerPublished { endpoint_service_id, endpoint_name } => {
            assert!(endpoint_service_id.same(&service_id(3)));
            assert_eq!(endpoint_name, "test_endpoint");
        }
        _ => panic!("the endpoint server comes third"),
    }
    assert!(matches!(events[3], ContextEvent::IdentityServerPublished));
    assert!(matches!(events[4], ContextEvent::TorBootstrapCompleted));
    assert!(context.update(Vec::new()).events.is_empty());
    assert!(context.handle_tor_events(Vec::new()).is_empty());
    assert!(context.handle_tor_event(TorEvent::OnionServicePublished { service_id: service_id(7) }).is_none());
}

#[test]
fn context_is_bootstrapped_by_the_report_and_by_nothing_else() {
    let mut context = context(1);
    context.update(vec![
        TorEvent::BootstrapStatus { progress: 100, tag: "done".to_string(), summary: "Done".to_string() },
        TorEvent::LogReceived { line: "a line".to_string() },
    ]);
    assert!(!context.bootstrap_complete());
    context.update(vec![TorEvent::LogReceived { line: "a line".to_string() }, TorEvent::BootstrapComplete]);
    assert!(context.bootstrap_complete());
    context.update(vec![TorEvent::LogReceived { line: "a line".to_string() }]);
    assert!(context.bootstrap_complete());
}

#[test]
fn context_gives_out_ascending_handles() {
    let mut context = bootstrapped(1);
    let key = GoslingX25519PrivateKey::from_raw(&[9u8; 32]);
    assert_eq!(context.identity_client_begin_handshake(service_id(2), "endpoint", key), Ok(0));
    assert_eq!(context.endpoint_client_begin_handshake(service_id(3), "channel".to_string()), Ok(1));
    assert_eq!(context.identity_server_accept(), Err(Error::IncorrectUsage));
    context.identity_server_start().unwrap();
    assert!(context.identity_server_is_listening());
    assert_eq!(context.identity_server_start(), Err(Error::IncorrectUsage));
    assert_eq!(context.identity_server_accept(), Ok(2));
    assert_eq!(context.endpoint_server_accept(service_id(4)), Err(Error::UnknownHandle));
    context.endpoint_server_start(service_id(4), "endpoint".to_string(), service_id(5)).unwrap();
    assert_eq!(context.endpoint_server_accept(service_id(4)), Ok(3));
    assert_eq!(context.endpoint_server_accept_with_cookie(service_id(4), None), Err(Error::EntropyUnavailable));
    assert_eq!(context.endpoint_server_accept_with_cookie(service_id(4), Some([1u8; 32])), Ok(4));
    assert_eq!(context.identity_client_begin_handshake(service_id(2), "endpoint", key), Ok(5));
    assert_eq!(context.identity_server_accept(), Ok(6));

    assert_eq!(context.identity_client_handles(), vec![0, 5]);
    assert_eq!(context.endpoint_client_handles(), vec![1]);
    assert_eq!(context.identity_server_handles(), vec![2, 6]);
    assert_eq!(context.endpoint_server_handles(), vec![3, 4]);

    // a tick steps the kinds in their order, and each kind by its handles
    let expected = vec![
        (HandshakeKind::IdentityClient, 0),
        (HandshakeKind::IdentityClient, 5),
        (HandshakeKind::IdentityServer, 2),
        (HandshakeKind::IdentityServer, 6),
        (HandshakeKind::EndpointClient, 1),
        (HandshakeKind::EndpointServer, 3),
        (HandshakeKind::EndpointServer, 4),
    ];
    assert_eq!(context.schedule(), expected);
    // a connection that is accepted before the tick is stepped in the tick
    assert_eq!(context.identity_server_accept(), Ok(7));
    let tick = context.update(vec![TorEvent::LogReceived { line: "a line".to_string() }]);
    assert_eq!(tick.events.len(), 1);
    assert_eq!(
        tick.schedule,
        vec![
            (HandshakeKind::IdentityClient, 0),
            (HandshakeKind::IdentityClient, 5),
            (HandshakeKind::IdentityServer, 2),
            (HandshakeKind::IdentityServer, 6),
            (HandshakeKind::IdentityServer, 7),
            (HandshakeKind::EndpointClient, 1),
            (HandshakeKind::EndpointServer, 3),
            (HandshakeKind::EndpointServer, 4),
        ]
    );
    assert!(Context::new(1, 2, GoslingEd25519PrivateKey::from_raw(&[1u8; 64]), service_id(1)).schedule().is_empty());

    // a handle that was given up is not given out again
    context.identity_client_abort_identity_handshake(5).unwrap();
    assert_eq!(context.identity_client_begin_handshake(service_id(2), "endpoint", key), Ok(8));
    assert_eq!(context.identity_client_handles(), vec![0, 8]);

    // stopping the identity server drops its handshakes, and nothing else
    context.identity_server_stop().unwrap();
    assert!(!context.identity_server_is_listening());
    assert!(context.identity_server_handles().is_empty());
    assert_eq!(context.identity_client_handles(), vec![0, 8]);
    assert_eq!(context.endpoint_server_handles(), vec![3, 4]);
    assert!(matches!(context.identity_server_update(2, false), Err(Error::UnknownHandle)));

    context.endpoint_server_stop(&service_id(4)).unwrap();
    assert_eq!(context.endpoint_server_stop(&service_id(4)), Err(Error::UnknownHandle));
    assert_eq!(context.endpoint_server_accept(service_id(4)), Err(Error::UnknownHandle));
}

#[test]
fn context_drops_what_comes_for_a_handshake_that_was_given_up() {
    let mut context = bootstrapped(1);
    let key = GoslingX25519PrivateKey::from_raw(&[9u8; 32]);
    let handle = context.identity_client_begin_handshake(service_id(2), "endpoint", key).unwrap();
    assert!(matches!(
        context.identity_client_update(handle, IdentityClientInput::Tick),
        Ok(IdentityClientStep::Call(_))
    ));
    context.identity_client_update(handle, IdentityClientInput::CallIssued { cookie: 0 }).unwrap();
    assert!(matches!(
        context.identity_client_update(handle, IdentityClientInput::Tick),
        Ok(IdentityClientStep::PollResponse)
    ));
    assert_eq!(context.identity_client_abort_identity_handshake(handle), Ok(()));
    assert!(context.identity_client_handles().is_empty());
    assert_eq!(context.identity_client_abort_identity_handshake(handle), Err(Error::UnknownHandle));
    let late = Response::Success { cookie: 0, result: Value::Document(Document::new()) };
    assert!(matches!(
        context.identity_client_update(handle, IdentityClientInput::Response(late)),
        Err(Error::UnknownHandle)
    ));
    assert_eq!(context.identity_client_handle_challenge_received(handle, Document::new()), Err(Error::UnknownHandle));
    assert!(context.identity_client_handles().is_empty());

    let handle = context.endpoint_client_begin_handshake(service_id(3), "channel".to_string()).unwrap();
    assert_eq!(context.endpoint_client_abort_handshake(handle), Ok(()));
    assert_eq!(context.endpoint_client_abort_handshake(handle), Err(Error::UnknownHandle));
    assert!(matches!(
        context.endpoint_client_update(handle, EndpointClientInput::NoResponse),
        Err(Error::UnknownHandle)
    ));
}

#[test]
fn context_retires_a_handshake_that_fails() {
    let mut context = bootstrapped(1);
    let key = GoslingX25519PrivateKey::from_raw(&[9u8; 32]);
    let handle = context.identity_client_begin_handshake(service_id(2), "endpoint", key).unwrap();
    match context.identity_client_update(handle, IdentityClientInput::TransportFailed) {
        Ok(IdentityClientStep::Event(ContextEvent::IdentityClientHandshakeFailed { handle: failed, reason })) => {
            assert_eq!(failed, handle);
            assert_eq!(reason, Error::RpcTransport);
        }
        _ => panic!("the failure is announced"),
    }
    assert!(context.identity_client_handles().is_empty());

    // a name that is not ASCII fails at the first tick: nothing is sent
    let handle = context.endpoint_client_begin_handshake(service_id(3), "ch\u{e4}nnel".to_string()).unwrap();
    match context.endpoint_client_update(handle, EndpointClientInput::Tick) {
        Ok(EndpointClientStep::Event(ContextEvent::EndpointClientHandshakeFailed { handle: failed, reason })) => {
            assert_eq!(failed, handle);
            assert_eq!(reason, Error::BadArgument);
        }
        _ => panic!("the failure is announced"),
    }
    assert!(context.endpoint_client_handles().is_empty());

    context.identity_server_start().unwrap();
    let handle = context.identity_server_accept().unwrap();
    assert!(matches!(context.identity_server_update(handle, false), Ok(None)));
    match context.identity_server_update(handle, true) {
        Ok(Some(ContextEvent::IdentityServerHandshakeFailed { handle: failed, reason })) => {
            assert_eq!(failed, handle);
            assert_eq!(reason, Error::RpcTransport);
        }
        _ => panic!("the failure is announced"),
    }
    assert!(context.identity_server_handles().is_empty());

    context.endpoint_server_start(service_id(4), "endpoint".to_string(), service_id(5)).unwrap();
    let handle = context.endpoint_server_accept(service_id(4)).unwrap();
    assert!(matches!(context.endpoint_server_update(handle, false), Ok(None)));
    assert!(matches!(
        context.endpoint_server_update(handle, true),
        Ok(Some(ContextEvent::EndpointServerHandshakeFailed { reason: Error::RpcTransport, .. }))
    ));
    assert!(context.endpoint_server_handles().is_empty());
}

#[test]
fn context_refuses_answers_for_unknown_handshakes() {
    let mut context = bootstrapped(1);
    assert_eq!(
        context.identity_server_handle_endpoint_request_received(9, true, true, Document::new()),
        Err(Error::UnknownHandle)
    );
    assert_eq!(context.identity_server_handle_challenge_response_received(9, true), Err(Error::UnknownHandle));
    assert_eq!(context.endpoint_server_handle_channel_request_received(9, true), Err(Error::IncorrectUsage));
    assert!(matches!(
        context.identity_server_exec_function(9, "begin_handshake", 0, Document::new(), Some(1)),
        Err(Error::UnknownHandle)
    ));
    assert!(matches!(context.identity_server_handle_signature_verification(9, true, true), Err(Error::UnknownHandle)));
    assert!(matches!(context.identity_server_next_result(9), Err(Error::UnknownHandle)));
    assert_eq!(
        context.identity_server_handle_endpoint_key(9, GoslingEd25519PrivateKey::from_raw(&[7u8; 64]), service_id(3)),
        Err(Error::UnknownHandle)
    );
    assert!(matches!(
        context.endpoint_server_exec_function(9, "begin_handshake", 0, Document::new(), Some(1)),
        Err(Error::UnknownHandle)
    ));
    assert!(matches!(context.endpoint_server_handle_signature_verification(9, true), Err(Error::UnknownHandle)));

    context.identity_server_start().unwrap();
    let handle = context.identity_server_accept().unwrap();
    // the handshake has not asked for anything yet
    assert_eq!(
        context.identity_server_handle_endpoint_request_received(handle, true, true, Document::new()),
        Err(Error::IncorrectUsage)
    );
    assert_eq!(
        context.identity_server_handle_challenge_response_received(handle, true),
        Err(Error::IncorrectUsage)
    );
    assert_eq!(context.identity_server_handles(), vec![handle]);
    assert!(matches!(
        context.identity_server_exec_function(handle, "begin_handshake", 0, Document::new(), Some(1)),
        Ok(Err(GoslingError::InvalidArg))
    ));
}

/// The wire between two contexts in a test.
#[derive(Default)]
struct Wire {
    next_cookie: RequestCookie,
    to_server: VecDeque<(RequestCookie, Call)>,
    to_client: VecDeque<Response>,
}

impl Wire {
    fn call(&mut self, call: Call) -> RequestCookie {
        let cookie = self.next_cookie;
        self.next_cookie += 1;
        self.to_server.push_back((cookie, call));
        cookie
    }

    fn reply(&mut self, cookie: RequestCookie, reply: Result<Value, GoslingError>) {
        self.to_client.push_back(match reply {
            Ok(result) => Response::Success { cookie, result },
            Err(error) => Response::Error { cookie, error_code: error.code() },
        });
    }
}

fn tick_identity_client(context: &mut Context, handle: HandshakeHandle, wire: &mut Wire) -> Option<ContextEvent> {
    let mut input = IdentityClientInput::Tick;
    loop {
        match context.identity_client_update(handle, input).unwrap() {
            IdentityClientStep::Idle => return None,
            IdentityClientStep::Event(event) => return Some(event),
            IdentityClientStep::Call(call) => input = IdentityClientInput::CallIssued { cookie: wire.call(call) },
            IdentityClientStep::PollResponse => {
                input = match wire.to_client.pop_front() {
                    Some(response) => IdentityClientInput::Response(response),
                    None => IdentityClientInput::NoResponse,
                }
            }
            IdentityClientStep::Sign(request) => {
                let signer = context.identity_service_id().clone();
                input = IdentityClientInput::Signed(sign_identity_proof(&signer, &request));
            }
        }
    }
}

fn tick_endpoint_client(context: &mut Context, handle: HandshakeHandle, wire: &mut Wire) -> Option<ContextEvent> {
    let mut input = EndpointClientInput::Tick;
    loop {
        match context.endpoint_client_update(handle, input).unwrap() {
            EndpointClientStep::Idle => return None,
            EndpointClientStep::Event(event) => return Some(event),
            EndpointClientStep::Call(call) => input = EndpointClientInput::CallIssued { cookie: wire.call(call) },
            EndpointClientStep::PollResponse => {
                input = match wire.to_client.pop_front() {
                    Some(response) => EndpointClientInput::Response(response),
                    None => EndpointClientInput::NoResponse,
                }
            }
            EndpointClientStep::Sign { client_proof } => {
                let signer = context.identity_service_id().to_string();
                input = EndpointClientInput::Signed {
                    client_identity_proof_signature: stand_in_signature(signer.as_bytes(), &client_proof),
                };
            }
        }
    }
}

fn tick_identity_server(
    context: &mut Context,
    handle: HandshakeHandle,
    wire: &mut Wire,
    endpoint: &(GoslingEd25519PrivateKey, GoslingV3OnionServiceId),
) -> Option<ContextEvent> {
    while let Some((cookie, call)) = wire.to_server.pop_front() {
        match context
            .identity_server_exec_function(handle, &call.function, call.version, call.arguments, Some(cookie))
            .unwrap()
        {
            Ok(IdentityServerExec::Deferred) => wire.to_client.push_back(Response::Pending { cookie }),
            Ok(IdentityServerExec::Verify(check)) => {
                let proof_valid = stand_in_signature(
                    check.client_identity.to_string().as_bytes(),
                    check.client_proof.as_ref().unwrap(),
                ) == check.client_identity_proof_signature;
                let auth_valid = stand_in_signature(
                    check.client_authorization_key.as_bytes(),
                    check.client_identity.to_string().as_bytes(),
                ) == check.client_authorization_signature;
                context.identity_server_handle_signature_verification(handle, proof_valid, auth_valid).unwrap().unwrap();
                wire.to_client.push_back(Response::Pending { cookie });
            }
            Err(error) => wire.reply(cookie, Err(error)),
        }
    }
    loop {
        match context.identity_server_next_result(handle).unwrap() {
            IdentityServerResult::Nothing => break,
            IdentityServerResult::GenerateEndpointKey => {
                context.identity_server_handle_endpoint_key(handle, endpoint.0, endpoint.1.clone()).unwrap()
            }
            IdentityServerResult::Reply { cookie, result } => wire.reply(cookie, result),
        }
    }
    context.identity_server_update(handle, false).unwrap()
}

fn tick_endpoint_server(context: &mut Context, handle: HandshakeHandle, wire: &mut Wire) -> Option<ContextEvent> {
    while let Some((cookie, call)) = wire.to_server.pop_front() {
        match context
            .endpoint_server_exec_function(handle, &call.function, call.version, call.arguments, Some(cookie))
            .unwrap()
        {
            Ok(EndpointServerExec::Reply(reply)) => wire.reply(cookie, Ok(reply)),
            Ok(EndpointServerExec::Deferred) => wire.to_client.push_back(Response::Pending { cookie }),
            Ok(EndpointServerExec::Verify(check)) => {
                let valid = stand_in_signature(check.client_identity.to_string().as_bytes(), &check.client_proof)
                    == check.client_identity_proof_signature;
                let reply = context.endpoint_server_handle_signature_verification(handle, valid).unwrap();
                wire.reply(cookie, reply);
            }
            Err(error) => wire.reply(cookie, Err(error)),
        }
    }
    context.endpoint_server_update(handle, false).unwrap()
}

#[test]
fn contexts_grant_an_endpoint_and_open_a_channel() {
    let mut alice = bootstrapped(1);
    let mut pat = bootstrapped(2);
    let endpoint = (GoslingEd25519PrivateKey::from_raw(&[7u8; 64]), service_id(3));
    let auth_key = GoslingX25519PrivateKey::from_raw(&[9u8; 32]);

    alice.identity_server_start().unwrap();
    let mut wire = Wire::default();
    let pat_handle = pat.identity_client_begin_handshake(service_id(1), "test_endpoint", auth_key).unwrap();
    let alice_handle = alice.identity_server_accept().unwrap();

    let mut alice_events = Vec::new();
    let mut pat_events = Vec::new();
    for _ in 0..8 {
        if alice.identity_server_handles().contains(&alice_handle) {
            match tick_identity_server(&mut alice, alice_handle, &mut wire, &endpoint) {
                Some(ContextEvent::IdentityServerEndpointRequestReceived { handle, client_service_id, requested_endpoint }) => {
                    assert_eq!(handle, alice_handle);
                    assert!(client_service_id.same(&service_id(2)));
                    assert_eq!(requested_endpoint, "test_endpoint");
                    alice.identity_server_handle_endpoint_request_received(handle, true, true, Document::new()).unwrap();
                }
                Some(ContextEvent::IdentityServerChallengeResponseReceived { handle, challenge_response }) => {
                    assert_eq!(challenge_response, Document::new());
                    alice.identity_server_handle_challenge_response_received(handle, true).unwrap();
                }
                Some(event) => alice_events.push(event),
                None => {}
            }
        }
        if pat.identity_client_handles().contains(&pat_handle) {
            match tick_identity_client(&mut pat, pat_handle, &mut wire) {
                Some(ContextEvent::IdentityClientChallengeReceived { handle, identity_service_id, endpoint_name, .. }) => {
                    assert_eq!(handle, pat_handle);
                    assert!(identity_service_id.same(&service_id(1)));
                    assert_eq!(endpoint_name, "test_endpoint");
                    pat.identity_client_handle_challenge_received(handle, Document::new()).unwrap();
                }
                Some(event) => pat_events.push(event),
                None => {}
            }
        }
    }
    // both handshakes came to their end and were retired
    assert!(alice.identity_server_handles().is_empty());
    assert!(pat.identity_client_handles().is_empty());
    assert_eq!(alice_events.len(), 1);
    assert_eq!(pat_events.len(), 1);
    let (endpoint_private_key, endpoint_name, client_service_id) = match alice_events.pop().unwrap() {
        ContextEvent::IdentityServerHandshakeCompleted {
            handle,
            endpoint_private_key,
            endpoint_name,
            client_service_id,
            client_auth_public_key,
        } => {
            assert_eq!(handle, alice_handle);
            let mut expected = auth_key.to_bytes();
            expected.reverse();
            assert_eq!(client_auth_public_key.as_bytes(), &expected);
            (endpoint_private_key, endpoint_name, client_service_id)
        }
        _ => panic!("the identity server grants the endpoint"),
    };
    let endpoint_service_id = match pat_events.pop().unwrap() {
        ContextEvent::IdentityClientHandshakeCompleted {
            handle,
            identity_service_id,
            endpoint_service_id,
            endpoint_name,
            client_auth_private_key,
        } => {
            assert_eq!(handle, pat_handle);
            assert!(identity_service_id.same(&service_id(1)));
            assert_eq!(endpoint_name, "test_endpoint");
            assert_eq!(client_auth_private_key.to_bytes(), auth_key.to_bytes());
            endpoint_service_id
        }
        _ => panic!("the identity client is granted the endpoint"),
    };
    // the endpoint that the client was told of is the one whose key the
    // server kept
    assert_eq!(endpoint_private_key.to_bytes(), endpoint.0.to_bytes());
    assert!(endpoint_service_id.same(&endpoint.1));

    alice.endpoint_server_start(endpoint.1.clone(), endpoint_name, client_service_id).unwrap();
    let mut wire = Wire::default();
    let pat_handle = pat.endpoint_client_begin_handshake(endpoint_service_id, "test_channel".to_string()).unwrap();
    let alice_handle = alice.endpoint_server_accept(endpoint.1.clone()).unwrap();
    let mut alice_events = Vec::new();
    let mut pat_events = Vec::new();
    for _ in 0..8 {
        if alice.endpoint_server_handles().contains(&alice_handle) {
            if let Some(event) = tick_endpoint_server(&mut alice, alice_handle, &mut wire) {
                alice_events.push(event);
            }
        }
        if pat.endpoint_client_handles().contains(&pat_handle) {
            if let Some(event) = tick_endpoint_client(&mut pat, pat_handle, &mut wire) {
                pat_events.push(event);
            }
        }
    }
    assert!(alice.endpoint_server_handles().is_empty());
    assert!(pat.endpoint_client_handles().is_empty());
    assert_eq!(alice_events.len(), 2);
    match &alice_events[0] {
        ContextEvent::EndpointServerChannelRequestReceived { handle, endpoint_service_id, requested_channel } => {
            assert_eq!(*handle, alice_handle);
            assert!(endpoint_service_id.same(&endpoint.1));
            assert_eq!(requested_channel, "test_channel");
        }
        _ => panic!("the channel request is announced"),
    }
    match &alice_events[1] {
        ContextEvent::EndpointServerHandshakeCompleted { handle, endpoint_service_id, client_service_id, channel_name } => {
            assert_eq!(*handle, alice_handle);
            assert!(endpoint_service_id.same(&endpoint.1));
            assert!(client_service_id.same(&service_id(2)));
            assert_eq!(channel_name, "test_channel");
        }
        _ => panic!("the endpoint server opens the channel"),
    }
    assert_eq!(pat_events.len(), 1);
    match &pat_events[0] {
        ContextEvent::EndpointClientHandshakeCompleted { handle, endpoint_service_id, channel_name } => {
            assert_eq!(*handle, pat_handle);
            assert!(endpoint_service_id.same(&endpoint.1));
            assert_eq!(channel_name, "test_channel");
        }
        _ => panic!("the endpoint client has its channel"),
    }
}

#[test]
fn contexts_turn_away_a_client_that_the_endpoint_was_not_granted_to() {
    let mut alice = bootstrapped(1);
    let mut mallory = bootstrapped(4);
    alice.endpoint_server_start(service_id(3), "test_endpoint".to_string(), service_id(2)).unwrap();
    let mut wire = Wire::default();
    let client = mallory.endpoint_client_begin_handshake(service_id(3), "test_channel".to_string()).unwrap();
    let server = alice.endpoint_server_accept(service_id(3)).unwrap();
    let mut alice_events = Vec::new();
    let mut mallory_events = Vec::new();
    for _ in 0..8 {
        if alice.endpoint_server_handles().contains(&server) {
            if let Some(event) = tick_endpoint_server(&mut alice, server, &mut wire) {
                alice_events.push(event);
            }
        }
        if mallory.endpoint_client_handles().contains(&client) {
            if let Some(event) = tick_endpoint_client(&mut mallory, client, &mut wire) {
                mallory_events.push(event);
            }
        }
    }
    assert!(matches!(
        alice_events.last(),
        Some(ContextEvent::EndpointServerHandshakeRejected {
            client_allowed: false,
            client_requested_channel_valid: true,
            client_proof_signature_valid: true,
            ..
        })
    ));
    assert!(matches!(
        mallory_events.last(),
        Some(ContextEvent::EndpointClientHandshakeFailed { reason: Error::RpcRemote(4), .. })
    ));
    assert!(alice.endpoint_server_handles().is_empty());
    assert!(mallory.endpoint_client_handles().is_empty());
}
