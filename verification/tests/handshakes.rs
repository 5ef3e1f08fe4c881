use std::collections::VecDeque;

use bson::spec::BinarySubtype;
use bson::{Binary, Bson, Document};
use gosling::client_proof::{build_client_proof, DomainSeparator};
use gosling::document::Value;
use gosling::endpoint_client::{
    EndpointClient, EndpointClientEvent, EndpointClientInput, EndpointClientOutput, EndpointClientState,
};
use gosling::endpoint_server::{
    EndpointServer, EndpointServerEvent, EndpointServerExec, EndpointServerState, EndpointSignatureCheck,
};
use gosling::error::{Error, GoslingError};
use gosling::identity_client::{
    IdentityClient, IdentityClientEvent, IdentityClientInput, IdentityClientOutput, IdentityClientState,
    IdentityProofRequest, IdentityProofSignatures,
};
use gosling::identity_server::{
    GoslingChallengeResponseResult, IdentityServer, IdentityServerEvent, IdentityServerExec, IdentityServerResult,
    IdentityServerState, IdentitySignatureCheck,
};
use gosling::keys::{GoslingEd25519PrivateKey, GoslingX25519PrivateKey, GoslingX25519PublicKey};
use gosling::rpc::{Call, RequestCookie, Response};
use gosling::service_id::GoslingV3OnionServiceId;

const ALPHABET: &[u8; 32] = b"abcdefghijklmnopqrstuvwxyz234567";

/// A service id for a test: 56 characters of the alphabet, picked by `seed`.
fn service_id(seed: u8) -> GoslingV3OnionServiceId {
    let mut text = String::new();
    for i in 0..56usize {
        let index = (seed as usize * 7 + i * 11 + (i * i) % 5) % 32;
        text.push(ALPHABET[index] as char);
    }
    GoslingV3OnionServiceId::from_string(&text).unwrap()
}

/// Stands in for an ed25519 signature in these tests: 64 bytes that
/// depend on every byte of the signer and of the message.
fn stand_in_signature(signer: &[u8], message: &[u8]) -> [u8; 64] {
    let mut state: u64 = 0xcbf2_9ce4_8422_2325;
    for byte in signer.iter().chain([0xffu8].iter()).chain(message.iter()) {
        state ^= *byte as u64;
        state = state.wrapping_mul(0x0000_0100_0000_01b3);
    }
    let mut signature = [0u8; 64];
    for (i, byte) in signature.iter_mut().enumerate() {
        state ^= i as u64;
        state = state.wrapping_mul(0x0000_0100_0000_01b3);
        *byte = (state >> 32) as u8;
    }
    signature
}

/// The stand-in public half of a client authorization key, with its sign
/// bit.
fn stand_in_public_key(private_key: &GoslingX25519PrivateKey) -> (GoslingX25519PublicKey, u8) {
    let mut bytes = private_key.to_bytes();
    for byte in bytes.iter_mut() {
        *byte = byte.rotate_left(3) ^ 0x5a;
    }
    let signbit = bytes[0] & 1;
    (GoslingX25519PublicKey::from_raw(&bytes), signbit)
}

fn sign_identity_proof(signer: &GoslingV3OnionServiceId, request: &IdentityProofRequest) -> IdentityProofSignatures {
    let (public_key, signbit) = stand_in_public_key(&request.client_auth_private_key);
    let mut auth_signer = public_key.as_bytes().to_vec();
    auth_signer.push(signbit);
    IdentityProofSignatures {
        client_identity_proof_signature: stand_in_signature(signer.to_string().as_bytes(), &request.client_proof),
        client_authorization_key: public_key,
        client_authorization_key_signbit: signbit,
        client_authorization_signature: stand_in_signature(&auth_signer, request.client_identity.as_bytes()),
    }
}

fn check_identity_signatures(check: &IdentitySignatureCheck) -> (bool, bool) {
    let proof_valid = match &check.client_proof {
        Some(client_proof) => {
            stand_in_signature(check.client_identity.to_string().as_bytes(), client_proof)
                == check.client_identity_proof_signature
        }
        None => false,
    };
    let mut auth_signer = check.client_authorization_key.as_bytes().to_vec();
    auth_signer.push(check.client_authorization_key_signbit);
    let auth_valid = stand_in_signature(&auth_signer, check.client_identity.to_string().as_bytes())
        == check.client_authorization_signature;
    (proof_valid, auth_valid)
}

fn check_endpoint_signature(check: &EndpointSignatureCheck) -> bool {
    stand_in_signature(check.client_identity.to_string().as_bytes(), &check.client_proof)
        == check.client_identity_proof_signature
}

fn message(text: &str) -> Document {
    let mut document = Document::new();
    document.insert("msg", Bson::String(text.to_string()));
    document
}

fn binary(bytes: &[u8]) -> Bson {
    Bson::Binary(Binary { subtype: BinarySubtype::Generic, bytes: bytes.to_vec() })
}

/// What a client and a server send each other in a test.
#[derive(Default)]
struct Wire {
    next_cookie: RequestCookie,
    to_server: VecDeque<(RequestCookie, Call)>,
    to_client: VecDeque<Response>,
    calls_sent: usize,
}

impl Wire {
    fn call(&mut self, call: Call) -> RequestCookie {
        let cookie = self.next_cookie;
        self.next_cookie += 1;
        self.calls_sent += 1;
        self.to_server.push_back((cookie, call));
        cookie
    }
}

/// Lets the identity server take the calls on the wire and put its
/// replies there, as the RPC session would.
fn run_identity_server_rpc(server: &mut IdentityServer, wire: &mut Wire, endpoint_key: &(GoslingEd25519PrivateKey, GoslingV3OnionServiceId)) {
    while let Some((cookie, call)) = wire.to_server.pop_front() {
        assert_eq!(call.namespace, server.namespace());
        match server.exec_function(&call.function, call.version, call.arguments, Some(cookie)) {
            Ok(IdentityServerExec::Deferred) => wire.to_client.push_back(Response::Pending { cookie }),
            Ok(IdentityServerExec::Verify(check)) => {
                let (proof_valid, auth_valid) = check_identity_signatures(&check);
                server.handle_signature_verification(proof_valid, auth_valid).unwrap();
                wire.to_client.push_back(Response::Pending { cookie });
            }
            Err(error) => wire.to_client.push_back(Response::Error { cookie, error_code: error.code() }),
        }
    }
    loop {
        match server.next_result() {
            IdentityServerResult::Nothing => break,
            IdentityServerResult::GenerateEndpointKey => {
                server.handle_endpoint_key(endpoint_key.0, endpoint_key.1.clone()).unwrap();
            }
            IdentityServerResult::Reply { cookie, result: Ok(result) } => {
                wire.to_client.push_back(Response::Success { cookie, result })
            }
            IdentityServerResult::Reply { cookie, result: Err(error) } => {
                wire.to_client.push_back(Response::Error { cookie, error_code: error.code() })
            }
        }
    }
}

/// One tick of an identity client: steps it until it has nothing more to
/// ask of its driver.
fn tick_identity_client(
    client: &mut IdentityClient,
    client_id: &GoslingV3OnionServiceId,
    wire: &mut Wire,
) -> Result<Option<IdentityClientEvent>, Error> {
    let mut input = IdentityClientInput::Tick;
    loop {
        match client.update(input)? {
            IdentityClientOutput::Idle => return Ok(None),
            IdentityClientOutput::Event(event) => return Ok(Some(event)),
            IdentityClientOutput::Call(call) => {
                input = IdentityClientInput::CallIssued { cookie: wire.call(call) };
            }
            IdentityClientOutput::PollResponse => {
                input = match wire.to_client.pop_front() {
                    Some(response) => IdentityClientInput::Response(response),
                    None => IdentityClientInput::NoResponse,
                };
            }
            IdentityClientOutput::Sign(request) => {
                input = IdentityClientInput::Signed(sign_identity_proof(client_id, &request));
            }
        }
    }
}

struct IdentityOutcome {
    failure_occurred: bool,
    client_endpoint: Option<GoslingV3OnionServiceId>,
    server_endpoint_key: Option<GoslingEd25519PrivateKey>,
    rejection: Option<[bool; 5]>,
    client_error: Option<Error>,
    client_state: IdentityClientState,
    server_state: IdentityServerState,
}

fn identity_test(
    client_blocked: bool,
    client_requested_endpoint: &str,
    client_requested_endpoint_valid: bool,
    server_challenge: Document,
    client_response: Document,
    server_expected_response: Document,
    should_fail: bool,
) -> IdentityOutcome {
    let mut wire = Wire::default();

    let client_id = service_id(1);
    let server_service_id = service_id(2);
    let endpoint_key = (GoslingEd25519PrivateKey::from_raw(&[7u8; 64]), service_id(3));

    let mut ident_client = IdentityClient::new(
        server_service_id.clone(),
        client_requested_endpoint.to_string(),
        client_id.clone(),
        GoslingX25519PrivateKey::from_raw(&[9u8; 32]),
    );
    let mut ident_server = IdentityServer::new(server_service_id.clone());

    let mut outcome = IdentityOutcome {
        failure_occurred: false,
        client_endpoint: None,
        server_endpoint_key: None,
        rejection: None,
        client_error: None,
        client_state: ident_client.state(),
        server_state: ident_server.state(),
    };
    let mut server_complete = false;
    let mut client_complete = false;
    let mut rounds = 0;
    while !server_complete && !client_complete {
        rounds += 1;
        assert!(rounds < 100, "the handshake does not come to an end");
        if !server_complete {
            run_identity_server_rpc(&mut ident_server, &mut wire, &endpoint_key);
            match ident_server.update() {
                Some(IdentityServerEvent::EndpointRequestReceived { client_service_id, requested_endpoint }) => {
                    assert!(client_service_id.same(&client_id));
                    assert_eq!(requested_endpoint, client_requested_endpoint);
                    let client_allowed = !client_blocked;
                    ident_server
                        .send_challenge(client_allowed, client_requested_endpoint_valid, server_challenge.clone())
                        .unwrap();
                }
                Some(IdentityServerEvent::ChallengeResponseReceived { challenge_response }) => {
                    ident_server.send_challenge_verification(challenge_response == server_expected_response).unwrap();
                }
                Some(IdentityServerEvent::HandshakeCompleted { endpoint_private_key, endpoint_name, client_service_id, .. }) => {
                    assert_eq!(endpoint_name, client_requested_endpoint);
                    assert!(client_service_id.same(&client_id));
                    outcome.server_endpoint_key = Some(endpoint_private_key);
                    server_complete = true;
                }
                Some(IdentityServerEvent::HandshakeRejected {
                    client_allowed,
                    client_requested_endpoint_valid,
                    client_proof_signature_valid,
                    client_auth_signature_valid,
                    challenge_response_valid,
                }) => {
                    outcome.rejection = Some([
                        client_allowed,
                        client_requested_endpoint_valid,
                        client_proof_signature_valid,
                        client_auth_signature_valid,
                        challenge_response_valid,
                    ]);
                    server_complete = true;
                    outcome.failure_occurred = true;
                }
                None => {}
            }
        }

        if !client_complete {
            match tick_identity_client(&mut ident_client, &client_id, &mut wire) {
                Ok(Some(IdentityClientEvent::ChallengeReceived { identity_service_id, endpoint_name, endpoint_challenge })) => {
                    assert!(identity_service_id.same(&server_service_id));
                    assert_eq!(endpoint_name, client_requested_endpoint);
                    assert_eq!(endpoint_challenge, server_challenge);
                    ident_client.send_response(client_response.clone()).unwrap();
                }
                Ok(Some(IdentityClientEvent::HandshakeCompleted { identity_service_id, endpoint_service_id, endpoint_name, client_auth_private_key })) => {
                    assert!(identity_service_id.same(&server_service_id));
                    assert_eq!(endpoint_name, client_requested_endpoint);
                    assert_eq!(client_auth_private_key.to_bytes(), [9u8; 32]);
                    outcome.client_endpoint = Some(endpoint_service_id);
                    client_complete = true;
                }
                Ok(None) => {}
                Err(error) => {
                    outcome.client_error = Some(error);
                    client_complete = true;
                    outcome.failure_occurred = true;
                }
            }
        }
    }

    assert_eq!(outcome.failure_occurred, should_fail);
    outcome.client_state = ident_client.state();
    outcome.server_state = ident_server.state();
    outcome
}

#[test]
fn test_identity_handshake() {
    // Sucessful ---
    {
        let outcome = identity_test(
            false,
            "endpoint",
            true,
            message("Speak friend and enter"),
            message("Mellon"),
            message("Mellon"),
            false,
        );
        assert_eq!(outcome.server_state, IdentityServerState::HandshakeComplete);
        assert_eq!(outcome.client_state, IdentityClientState::HandshakeComplete);
        assert!(outcome.client_endpoint.unwrap().same(&service_id(3)));
        assert_eq!(outcome.server_endpoint_key.unwrap().to_bytes(), [7u8; 64]);
    }
    // Bad Endpoint ---
    {
        let outcome = identity_test(
            false,
            "endpoint",
            false,
            message("Speak friend and enter"),
            message("Mellon"),
            message("Mellon"),
            true,
        );
        assert_eq!(outcome.rejection, Some([true, false, true, true, true]));
    }
    // Bad Challenge Response ---
    {
        let outcome = identity_test(
            false,
            "endpoint",
            true,
            message("Speak friend and enter"),
            message("Friend?"),
            message("Mellon"),
            true,
        );
        assert_eq!(outcome.rejection, Some([true, true, true, true, false]));
    }
    // Blocked Client ---
    {
        let outcome = identity_test(
            true,
            "endpoint",
            true,
            message("Speak friend and enter"),
            message("Mellon"),
            message("Mellon"),
            true,
        );
        assert_eq!(outcome.rejection, Some([false, true, true, true, true]));
    }
}

/// Lets the endpoint server take the calls on the wire and put its
/// replies there, as the RPC session would.
fn run_endpoint_server_rpc(server: &mut EndpointServer, wire: &mut Wire, forge: bool) {
    while let Some((cookie, call)) = wire.to_server.pop_front() {
        assert_eq!(call.namespace, server.namespace());
        let reply = match server.exec_function(&call.function, call.version, call.arguments, Some(cookie)) {
            Ok(EndpointServerExec::Reply(reply)) => Ok(reply),
            Ok(EndpointServerExec::Deferred) => {
                wire.to_client.push_back(Response::Pending { cookie });
                continue;
            }
            Ok(EndpointServerExec::Verify(check)) => {
                let valid = check_endpoint_signature(&check) && !forge;
                server.handle_signature_verification(valid)
            }
            Err(error) => Err(error),
        };
        match reply {
            Ok(result) => wire.to_client.push_back(Response::Success { cookie, result }),
            Err(error) => wire.to_client.push_back(Response::Error { cookie, error_code: error.code() }),
        }
    }
}

fn tick_endpoint_client(
    client: &mut EndpointClient,
    client_id: &GoslingV3OnionServiceId,
    wire: &mut Wire,
) -> Result<Option<EndpointClientEvent>, Error> {
    let mut input = EndpointClientInput::Tick;
    loop {
        match client.update(input)? {
            EndpointClientOutput::Idle => return Ok(None),
            EndpointClientOutput::Event(event) => return Ok(Some(event)),
            EndpointClientOutput::Call(call) => {
                input = EndpointClientInput::CallIssued { cookie: wire.call(call) };
            }
            EndpointClientOutput::PollResponse => {
                input = match wire.to_client.pop_front() {
                    Some(response) => EndpointClientInput::Response(response),
                    None => EndpointClientInput::NoResponse,
                };
            }
            EndpointClientOutput::Sign { client_proof } => {
                input = EndpointClientInput::Signed {
                    client_identity_proof_signature: stand_in_signature(
                        client_id.to_string().as_bytes(),
                        &client_proof,
                    ),
                };
            }
        }
    }
}

struct EndpointOutcome {
    rejection: Option<[bool; 3]>,
    channel_requests: Vec<String>,
    completed_channel: Option<String>,
    client_error: Option<Error>,
    client_completed: bool,
}

fn endpoint_test(should_fail: bool, client_allowed: bool) -> EndpointOutcome {
    let mut wire = Wire::default();

    let server_service_id = service_id(4);
    let client_service_id = service_id(5);

    // ensure our client is in the allow list
    let allowed_client = if client_allowed { client_service_id.clone() } else { service_id(6) };

    let mut endpoint_server = EndpointServer::new(allowed_client, server_service_id.clone()).unwrap();
    let mut endpoint_client =
        EndpointClient::new(server_service_id.clone(), "channel".to_string(), client_service_id.clone());

    let mut outcome = EndpointOutcome {
        rejection: None,
        channel_requests: Vec::new(),
        completed_channel: None,
        client_error: None,
        client_completed: false,
    };
    let mut failure_occurred = false;
    let mut server_complete = false;
    let mut client_complete = false;
    let mut rounds = 0;
    while !server_complete && !client_complete {
        rounds += 1;
        assert!(rounds < 100, "the handshake does not come to an end");
        if !server_complete {
            run_endpoint_server_rpc(&mut endpoint_server, &mut wire, false);
            match endpoint_server.update() {
                Ok(Some(EndpointServerEvent::ChannelRequestReceived { requested_channel })) => {
                    assert_eq!(requested_channel, "channel");
                    outcome.channel_requests.push(requested_channel);
                }
                Ok(Some(EndpointServerEvent::HandshakeCompleted { client_service_id: ret_client_service_id, channel_name })) => {
                    assert!(ret_client_service_id.same(&client_service_id));
                    outcome.completed_channel = Some(channel_name);
                    server_complete = true;
                }
                Ok(Some(EndpointServerEvent::HandshakeRejected {
                    client_allowed,
                    client_requested_channel_valid,
                    client_proof_signature_valid,
                })) => {
                    outcome.rejection =
                        Some([client_allowed, client_requested_channel_valid, client_proof_signature_valid]);
                    server_complete = true;
                    failure_occurred = true;
                }
                Ok(None) => {}
                Err(_) => {
                    server_complete = true;
                    failure_occurred = true;
                }
            }
        }

        if !client_complete {
            match tick_endpoint_client(&mut endpoint_client, &client_service_id, &mut wire) {
                Ok(Some(EndpointClientEvent::HandshakeCompleted)) => {
                    outcome.client_completed = true;
                    client_complete = true;
                }
                Ok(None) => {}
                Err(error) => {
                    outcome.client_error = Some(error);
                    client_complete = true;
                    failure_occurred = true;
                }
            }
        }
    }

    assert_eq!(should_fail, failure_occurred);
    outcome
}

#[test]
fn test_endpoint_handshake() {
    let accepted = endpoint_test(false, true);
    assert_eq!(accepted.channel_requests, vec!["channel".to_string()]);
    assert_eq!(accepted.completed_channel, Some("channel".to_string()));
    assert!(accepted.client_completed);
    assert_eq!(accepted.rejection, None);
    assert_eq!(accepted.client_error, None);

    let refused = endpoint_test(true, false);
    assert_eq!(refused.channel_requests, vec!["channel".to_string()]);
    assert_eq!(refused.rejection, Some([false, true, true]));
    assert_eq!(refused.client_error, Some(Error::RpcRemote(4)));
    assert_eq!(refused.completed_channel, None);
    assert!(!refused.client_completed);
}

#[test]
fn endpoint_handshake_opens_the_channel_on_both_sides() {
    let mut wire = Wire::default();
    let server_id = service_id(4);
    let client_id = service_id(5);
    let mut server = EndpointServer::with_server_cookie(client_id.clone(), server_id.clone(), [3u8; 32]);
    let mut client = EndpointClient::new(server_id.clone(), "channel".to_string(), client_id.clone());

    let mut server_events = Vec::new();
    let mut client_events = 0;
    for _ in 0..6 {
        run_endpoint_server_rpc(&mut server, &mut wire, false);
        if server.state() != EndpointServerState::HandshakeComplete {
            if let Some(event) = server.update().unwrap() {
                server_events.push(event);
            }
        }
        if client.state() != EndpointClientState::HandshakeComplete {
            if let Some(EndpointClientEvent::HandshakeCompleted) =
                tick_endpoint_client(&mut client, &client_id, &mut wire).unwrap()
            {
                client_events += 1;
            }
        }
    }
    assert_eq!(client_events, 1);
    assert_eq!(client.state(), EndpointClientState::HandshakeComplete);
    assert_eq!(server.state(), EndpointServerState::HandshakeComplete);
    assert_eq!(server_events.len(), 2);
    match &server_events[0] {
        EndpointServerEvent::ChannelRequestReceived { requested_channel } => assert_eq!(requested_channel, "channel"),
        _ => panic!("the channel request comes first"),
    }
    match &server_events[1] {
        EndpointServerEvent::HandshakeCompleted { client_service_id, channel_name } => {
            assert!(client_service_id.same(&client_id));
            assert_eq!(channel_name, "channel");
        }
        _ => panic!("the handshake completes"),
    }
    assert_eq!(wire.calls_sent, 2);
    assert_eq!(server.update().err(), Some(Error::InvalidState));
    assert_eq!(client.update(EndpointClientInput::Tick).err(), Some(Error::InvalidState));
}

#[test]
fn endpoint_handshake_with_the_wrong_client_is_rejected() {
    let mut wire = Wire::default();
    let server_id = service_id(4);
    let client_id = service_id(5);
    let mut server = EndpointServer::with_server_cookie(service_id(6), server_id.clone(), [3u8; 32]);
    let mut client = EndpointClient::new(server_id.clone(), "channel".to_string(), client_id.clone());

    let mut rejection = None;
    let mut client_error = None;
    for _ in 0..6 {
        run_endpoint_server_rpc(&mut server, &mut wire, false);
        if server.state() != EndpointServerState::HandshakeComplete {
            if let Some(EndpointServerEvent::HandshakeRejected {
                client_allowed,
                client_requested_channel_valid,
                client_proof_signature_valid,
            }) = server.update().unwrap()
            {
                rejection = Some((client_allowed, client_requested_channel_valid, client_proof_signature_valid));
            }
        }
        if client_error.is_none() {
            client_error = tick_endpoint_client(&mut client, &client_id, &mut wire).err();
        }
    }
    assert_eq!(rejection, Some((false, true, true)));
    assert_eq!(client_error, Some(Error::RpcRemote(4)));
}

#[test]
fn endpoint_handshake_with_a_forged_proof_is_rejected() {
    let mut wire = Wire::default();
    let server_id = service_id(4);
    let client_id = service_id(5);
    let mut server = EndpointServer::with_server_cookie(client_id.clone(), server_id.clone(), [3u8; 32]);
    let mut client = EndpointClient::new(server_id.clone(), "channel".to_string(), client_id.clone());

    let mut rejection = None;
    for _ in 0..6 {
        run_endpoint_server_rpc(&mut server, &mut wire, true);
        if server.state() != EndpointServerState::HandshakeComplete {
            if let Some(EndpointServerEvent::HandshakeRejected {
                client_allowed,
                client_requested_channel_valid,
                client_proof_signature_valid,
            }) = server.update().unwrap()
            {
                rejection = Some((client_allowed, client_requested_channel_valid, client_proof_signature_valid));
            }
        }
        let _ = tick_endpoint_client(&mut client, &client_id, &mut wire);
    }
    assert_eq!(rejection, Some((true, true, false)));
}

fn begin_handshake_arguments(version: &str, client: &str, endpoint: &str) -> Document {
    let mut arguments = Document::new();
    arguments.insert("version", Bson::String(version.to_string()));
    arguments.insert("client_identity", Bson::String(client.to_string()));
    arguments.insert("endpoint", Bson::String(endpoint.to_string()));
    arguments
}

#[test]
fn identity_client_sends_the_documented_calls() {
    let client_id = service_id(1);
    let server_id = service_id(2);
    let mut client = IdentityClient::new(
        server_id.clone(),
        "endpoint".to_string(),
        client_id.clone(),
        GoslingX25519PrivateKey::from_raw(&[9u8; 32]),
    );
    let call = match client.advance(IdentityClientInput::Tick, None).unwrap() {
        IdentityClientOutput::Call(call) => call,
        _ => panic!("the first tick asks for a call"),
    };
    assert_eq!(call.namespace, "gosling_identity");
    assert_eq!(call.function, "begin_handshake");
    assert_eq!(call.version, 0);
    assert_eq!(call.arguments, begin_handshake_arguments("0.0.0.1", &client_id.to_string(), "endpoint"));
    assert_eq!(client.state(), IdentityClientState::BeginHandshake);

    assert!(matches!(
        client.advance(IdentityClientInput::CallIssued { cookie: 42 }, None).unwrap(),
        IdentityClientOutput::Idle
    ));
    assert_eq!(client.state(), IdentityClientState::WaitingForChallenge);
    assert!(matches!(client.advance(IdentityClientInput::Tick, None).unwrap(), IdentityClientOutput::PollResponse));
    assert!(matches!(client.advance(IdentityClientInput::NoResponse, None).unwrap(), IdentityClientOutput::Idle));
    assert!(matches!(
        client.advance(IdentityClientInput::Response(Response::Pending { cookie: 42 }), None).unwrap(),
        IdentityClientOutput::Idle
    ));

    let mut reply = Document::new();
    reply.insert("server_cookie", binary(&[5u8; 32]));
    reply.insert("endpoint_challenge", Bson::Document(message("Speak friend and enter")));
    let response = Response::Success { cookie: 42, result: Value::Document(reply) };
    match client.advance(IdentityClientInput::Response(response), None).unwrap() {
        IdentityClientOutput::Event(IdentityClientEvent::ChallengeReceived {
            identity_service_id,
            endpoint_name,
            endpoint_challenge,
        }) => {
            assert!(identity_service_id.same(&server_id));
            assert_eq!(endpoint_name, "endpoint");
            assert_eq!(endpoint_challenge, message("Speak friend and enter"));
        }
        _ => panic!("the challenge is announced"),
    }
    assert_eq!(client.state(), IdentityClientState::WaitingForChallengeResponse);
    assert!(matches!(client.advance(IdentityClientInput::Tick, None).unwrap(), IdentityClientOutput::Idle));

    client.send_response(message("Mellon")).unwrap();
    let request = match client.advance(IdentityClientInput::Tick, Some([6u8; 32])).unwrap() {
        IdentityClientOutput::Sign(request) => request,
        _ => panic!("the answer is signed"),
    };
    let expected_proof = build_client_proof(
        DomainSeparator::GoslingIdentity,
        "endpoint",
        &client_id,
        &server_id,
        &[6u8; 32],
        &[5u8; 32],
    )
    .unwrap();
    assert_eq!(request.client_proof, expected_proof);
    assert_eq!(request.client_identity, client_id.to_string());
    assert_eq!(request.client_auth_private_key.to_bytes(), [9u8; 32]);
    // a second tick asks for the same signature, with the same cookie
    match client.advance(IdentityClientInput::Tick, Some([8u8; 32])).unwrap() {
        IdentityClientOutput::Sign(again) => assert_eq!(again.client_proof, expected_proof),
        _ => panic!("the answer is signed"),
    }
    assert_eq!(client.send_response(message("Mellon")), Err(Error::IncorrectUsage));

    let signatures = IdentityProofSignatures {
        client_identity_proof_signature: [1u8; 64],
        client_authorization_key: GoslingX25519PublicKey::from_raw(&[2u8; 32]),
        client_authorization_key_signbit: 1,
        client_authorization_signature: [3u8; 64],
    };
    let call = match client.advance(IdentityClientInput::Signed(signatures), None).unwrap() {
        IdentityClientOutput::Call(call) => call,
        _ => panic!("the answer is sent"),
    };
    let mut expected = Document::new();
    expected.insert("client_cookie", binary(&[6u8; 32]));
    expected.insert("client_identity_proof_signature", binary(&[1u8; 64]));
    expected.insert("client_authorization_key", binary(&[2u8; 32]));
    expected.insert("client_authorization_key_signbit", Bson::Boolean(true));
    expected.insert("client_authorization_signature", binary(&[3u8; 64]));
    expected.insert("challenge_response", Bson::Document(message("Mellon")));
    assert_eq!(call.namespace, "gosling_identity");
    assert_eq!(call.function, "send_response");
    assert_eq!(call.version, 0);
    assert_eq!(call.arguments, expected);

    assert!(matches!(client.advance(IdentityClientInput::Tick, None).unwrap(), IdentityClientOutput::Idle));
    client.advance(IdentityClientInput::CallIssued { cookie: 43 }, None).unwrap();
    assert_eq!(client.state(), IdentityClientState::WaitingForChallengeVerification);

    let endpoint_id = service_id(3);
    let response = Response::Success { cookie: 43, result: Value::Text(endpoint_id.to_string()) };
    match client.advance(IdentityClientInput::Response(response), None).unwrap() {
        IdentityClientOutput::Event(IdentityClientEvent::HandshakeCompleted { endpoint_service_id, .. }) => {
            assert!(endpoint_service_id.same(&endpoint_id))
        }
        _ => panic!("the handshake completes"),
    }
    assert_eq!(client.state(), IdentityClientState::HandshakeComplete);
    assert_eq!(client.advance(IdentityClientInput::Tick, None).err(), Some(Error::InvalidState));
}

fn waiting_identity_client() -> IdentityClient {
    let mut client = IdentityClient::new(
        service_id(2),
        "endpoint".to_string(),
        service_id(1),
        GoslingX25519PrivateKey::from_raw(&[9u8; 32]),
    );
    client.advance(IdentityClientInput::Tick, None).unwrap();
    client.advance(IdentityClientInput::CallIssued { cookie: 7 }, None).unwrap();
    client
}

#[test]
fn identity_client_fails_on_what_it_cannot_read() {
    // an error of the peer
    let mut client = waiting_identity_client();
    let response = Response::Error { cookie: 7, error_code: 1 };
    assert_eq!(client.advance(IdentityClientInput::Response(response), None).err(), Some(Error::RpcRemote(1)));

    // a cookie that was not asked for
    let mut client = waiting_identity_client();
    let response = Response::Pending { cookie: 8 };
    assert_eq!(client.advance(IdentityClientInput::Response(response), None).err(), Some(Error::InvalidState));

    // a reply of the wrong shape
    let mut client = waiting_identity_client();
    let response = Response::Success { cookie: 7, result: Value::Text("cookie".to_string()) };
    assert_eq!(client.advance(IdentityClientInput::Response(response), None).err(), Some(Error::BadArgument));

    // a server cookie of the wrong length
    let mut client = waiting_identity_client();
    let mut reply = Document::new();
    reply.insert("server_cookie", binary(&[5u8; 31]));
    reply.insert("endpoint_challenge", Bson::Document(Document::new()));
    let response = Response::Success { cookie: 7, result: Value::Document(reply) };
    assert_eq!(client.advance(IdentityClientInput::Response(response), None).err(), Some(Error::BadArgument));
    assert_eq!(client.state(), IdentityClientState::WaitingForChallenge);

    // a server cookie that is not generic binary data
    let mut client = waiting_identity_client();
    let mut reply = Document::new();
    reply.insert("server_cookie", Bson::Binary(Binary { subtype: BinarySubtype::Uuid, bytes: vec![5u8; 32] }));
    reply.insert("endpoint_challenge", Bson::Document(Document::new()));
    let response = Response::Success { cookie: 7, result: Value::Document(reply) };
    assert_eq!(client.advance(IdentityClientInput::Response(response), None).err(), Some(Error::BadArgument));

    // no challenge
    let mut client = waiting_identity_client();
    let mut reply = Document::new();
    reply.insert("server_cookie", binary(&[5u8; 32]));
    let response = Response::Success { cookie: 7, result: Value::Document(reply) };
    assert_eq!(client.advance(IdentityClientInput::Response(response), None).err(), Some(Error::BadArgument));

    // the transport
    let mut client = waiting_identity_client();
    assert_eq!(client.advance(IdentityClientInput::TransportFailed, None).err(), Some(Error::RpcTransport));

    // an input out of turn
    let mut client = waiting_identity_client();
    assert_eq!(
        client.advance(IdentityClientInput::CallIssued { cookie: 1 }, None).err(),
        Some(Error::InvalidState)
    );
    assert_eq!(client.send_response(Document::new()), Err(Error::IncorrectUsage));
}

#[test]
fn identity_client_needs_a_cookie_to_answer() {
    let mut client = waiting_identity_client();
    let mut reply = Document::new();
    reply.insert("server_cookie", binary(&[5u8; 32]));
    reply.insert("endpoint_challenge", Bson::Document(Document::new()));
    let response = Response::Success { cookie: 7, result: Value::Document(reply) };
    client.advance(IdentityClientInput::Response(response), None).unwrap();
    client.send_response(Document::new()).unwrap();
    assert!(client.draws_cookie(&IdentityClientInput::Tick));
    assert!(!client.draws_cookie(&IdentityClientInput::NoResponse));
    assert_eq!(client.advance(IdentityClientInput::Tick, None).err(), Some(Error::EntropyUnavailable));
    // with the operating system's generator the step succeeds, and two
    // handshakes do not share a cookie
    let first = match client.update(IdentityClientInput::Tick).unwrap() {
        IdentityClientOutput::Sign(request) => request.client_proof,
        _ => panic!("the answer is signed"),
    };
    let mut other = waiting_identity_client();
    let mut reply = Document::new();
    reply.insert("server_cookie", binary(&[5u8; 32]));
    reply.insert("endpoint_challenge", Bson::Document(Document::new()));
    other
        .advance(
            IdentityClientInput::Response(Response::Success { cookie: 7, result: Value::Document(reply) }),
            None,
        )
        .unwrap();
    other.send_response(Document::new()).unwrap();
    let second = match other.update(IdentityClientInput::Tick).unwrap() {
        IdentityClientOutput::Sign(request) => request.client_proof,
        _ => panic!("the answer is signed"),
    };
    assert_eq!(first.len(), second.len());
    assert_ne!(first, second);
}

#[test]
fn identity_client_refuses_a_signbit_that_is_no_bit() {
    let mut client = waiting_identity_client();
    let mut reply = Document::new();
    reply.insert("server_cookie", binary(&[5u8; 32]));
    reply.insert("endpoint_challenge", Bson::Document(Document::new()));
    let response = Response::Success { cookie: 7, result: Value::Document(reply) };
    client.advance(IdentityClientInput::Response(response), None).unwrap();
    client.send_response(Document::new()).unwrap();
    client.advance(IdentityClientInput::Tick, Some([6u8; 32])).unwrap();
    let signatures = IdentityProofSignatures {
        client_identity_proof_signature: [1u8; 64],
        client_authorization_key: GoslingX25519PublicKey::from_raw(&[2u8; 32]),
        client_authorization_key_signbit: 2,
        client_authorization_signature: [3u8; 64],
    };
    assert_eq!(client.advance(IdentityClientInput::Signed(signatures), None).err(), Some(Error::BadArgument));
}

#[test]
fn clients_refuse_names_that_are_not_ascii() {
    let mut identity_client = IdentityClient::new(
        service_id(2),
        "\u{e9}ndpoint".to_string(),
        service_id(1),
        GoslingX25519PrivateKey::from_raw(&[9u8; 32]),
    );
    assert_eq!(identity_client.update(IdentityClientInput::Tick).err(), Some(Error::BadArgument));
    assert_eq!(identity_client.state(), IdentityClientState::BeginHandshake);

    let mut endpoint_client = EndpointClient::new(service_id(4), "ch\u{e4}nnel".to_string(), service_id(5));
    assert_eq!(endpoint_client.update(EndpointClientInput::Tick).err(), Some(Error::BadArgument));
    assert_eq!(endpoint_client.state(), EndpointClientState::BeginHandshake);
}

fn challenged_identity_server() -> IdentityServer {
    let client_id = service_id(1);
    let mut server = IdentityServer::new(service_id(2));
    let arguments = begin_handshake_arguments("0.0.0.1", &client_id.to_string(), "endpoint");
    assert!(matches!(
        server.exec_function("begin_handshake", 0, arguments, Some(10)),
        Ok(IdentityServerExec::Deferred)
    ));
    assert!(matches!(server.update(), Some(IdentityServerEvent::EndpointRequestReceived { .. })));
    server
}

fn send_response_arguments(cookie: &[u8], proof: &[u8], key: &[u8], signature: &[u8]) -> Document {
    let mut arguments = Document::new();
    arguments.insert("client_cookie", binary(cookie));
    arguments.insert("client_identity_proof_signature", binary(proof));
    arguments.insert("client_authorization_key", binary(key));
    arguments.insert("client_authorization_key_signbit", Bson::Boolean(false));
    arguments.insert("client_authorization_signature", binary(signature));
    arguments.insert("challenge_response", Bson::Document(message("Mellon")));
    arguments
}

#[test]
fn identity_server_refuses_another_version() {
    let client_id = service_id(1);
    let mut server = IdentityServer::new(service_id(2));
    let arguments = begin_handshake_arguments("0.0.0.2", &client_id.to_string(), "endpoint");
    assert!(matches!(
        server.exec_function("begin_handshake", 0, arguments, Some(10)),
        Err(GoslingError::BadVersion)
    ));
    assert_eq!(GoslingError::BadVersion.code(), 1);
    assert_eq!(server.state(), IdentityServerState::WaitingForBeginHandshake);
    assert!(server.update().is_none());
    // the client that is told so gives up
    let mut client = waiting_identity_client();
    let response = Response::Error { cookie: 7, error_code: GoslingError::BadVersion.code() };
    assert_eq!(client.update(IdentityClientInput::Response(response)).err(), Some(Error::RpcRemote(1)));
}

#[test]
fn identity_server_refuses_calls_it_cannot_take() {
    let client_id = service_id(1);
    let mut server = IdentityServer::new(service_id(2));
    let arguments = begin_handshake_arguments("0.0.0.1", &client_id.to_string(), "endpoint");
    assert!(matches!(
        server.exec_function("begin_handshake", 0, arguments.clone(), None),
        Err(GoslingError::RequestCookieRequired)
    ));
    assert!(matches!(
        server.exec_function("begin_handshake", 1, arguments.clone(), Some(1)),
        Err(GoslingError::Failure)
    ));
    assert!(matches!(server.exec_function("send_response", 0, arguments.clone(), Some(1)), Err(GoslingError::Failure)));
    assert!(matches!(server.exec_function("other", 0, arguments, Some(1)), Err(GoslingError::Failure)));
    let not_an_id = begin_handshake_arguments("0.0.0.1", "client", "endpoint");
    assert!(matches!(server.exec_function("begin_handshake", 0, not_an_id, Some(1)), Err(GoslingError::InvalidArg)));
    let mut no_endpoint = Document::new();
    no_endpoint.insert("version", Bson::String("0.0.0.1".to_string()));
    no_endpoint.insert("client_identity", Bson::String(client_id.to_string()));
    assert!(matches!(
        server.exec_function("begin_handshake", 0, no_endpoint, Some(1)),
        Err(GoslingError::InvalidArg)
    ));
    let mut wrong_shape = begin_handshake_arguments("0.0.0.1", &client_id.to_string(), "endpoint");
    wrong_shape.insert("endpoint", Bson::Int32(1));
    assert!(matches!(
        server.exec_function("begin_handshake", 0, wrong_shape, Some(1)),
        Err(GoslingError::InvalidArg)
    ));
    assert_eq!(server.state(), IdentityServerState::WaitingForBeginHandshake);
    assert!(matches!(server.next_result(), IdentityServerResult::Nothing));
    assert!(matches!(server.handle_signature_verification(true, true), Err(GoslingError::Failure)));
    assert_eq!(server.handle_endpoint_key(GoslingEd25519PrivateKey::from_raw(&[7u8; 64]), service_id(3)), Err(Error::IncorrectUsage));
}

#[test]
fn identity_server_takes_the_challenge_once() {
    let mut server = challenged_identity_server();
    assert_eq!(server.state(), IdentityServerState::GettingChallenge);
    assert!(matches!(server.next_result(), IdentityServerResult::Nothing));
    assert_eq!(
        server.send_challenge_with_cookie(true, true, message("Speak friend and enter"), None),
        Err(Error::EntropyUnavailable)
    );
    assert_eq!(server.send_challenge_verification(true), Err(Error::IncorrectUsage));
    server.send_challenge(true, true, message("Speak friend and enter")).unwrap();
    assert_eq!(server.state(), IdentityServerState::ChallengeReady);
    assert_eq!(server.send_challenge(true, true, message("Speak friend and enter")), Err(Error::IncorrectUsage));
    assert_eq!(server.state(), IdentityServerState::ChallengeReady);
}

#[test]
fn identity_server_replies_with_its_cookie_and_challenge() {
    let mut server = challenged_identity_server();
    server.send_challenge_with_cookie(true, true, message("Speak friend and enter"), Some([5u8; 32])).unwrap();
    match server.next_result() {
        IdentityServerResult::Reply { cookie, result: Ok(reply) } => {
            assert_eq!(cookie, 10);
            let mut expected = Document::new();
            expected.insert("server_cookie", binary(&[5u8; 32]));
            expected.insert("endpoint_challenge", Bson::Document(message("Speak friend and enter")));
            assert!(matches!(reply, Value::Document(document) if document == expected));
        }
        _ => panic!("the challenge goes out"),
    }
    assert_eq!(server.state(), IdentityServerState::WaitingForSendResponse);
    assert!(matches!(server.next_result(), IdentityServerResult::Nothing));
    assert!(server.update().is_none());
}

#[test]
fn identity_server_refuses_wrong_lengths() {
    let cases: Vec<(usize, usize, usize, usize)> =
        vec![(31, 64, 32, 64), (33, 64, 32, 64), (32, 63, 32, 64), (32, 64, 31, 64), (32, 64, 32, 65), (0, 0, 0, 0)];
    for (cookie, proof, key, signature) in cases {
        let mut server = challenged_identity_server();
        server.send_challenge_with_cookie(true, true, message("Speak friend and enter"), Some([5u8; 32])).unwrap();
        server.next_result();
        let arguments =
            send_response_arguments(&vec![1u8; cookie], &vec![2u8; proof], &vec![3u8; key], &vec![4u8; signature]);
        assert!(matches!(server.exec_function("send_response", 0, arguments, Some(11)), Err(GoslingError::InvalidArg)));
        assert_eq!(server.state(), IdentityServerState::WaitingForSendResponse);
        assert!(server.update().is_none());
        // the server still takes a call that is well formed
        let arguments = send_response_arguments(&[1u8; 32], &[2u8; 64], &[3u8; 32], &[4u8; 64]);
        assert!(matches!(
            server.exec_function("send_response", 0, arguments, Some(12)),
            Ok(IdentityServerExec::Verify(_))
        ));
    }
    // a sign bit that is not a boolean
    let mut server = challenged_identity_server();
    server.send_challenge_with_cookie(true, true, message("Speak friend and enter"), Some([5u8; 32])).unwrap();
    server.next_result();
    let mut arguments = send_response_arguments(&[1u8; 32], &[2u8; 64], &[3u8; 32], &[4u8; 64]);
    arguments.insert("client_authorization_key_signbit", Bson::Int32(1));
    assert!(matches!(server.exec_function("send_response", 0, arguments, Some(11)), Err(GoslingError::InvalidArg)));
}

fn verified_identity_server(proof_valid: bool, auth_valid: bool) -> IdentityServer {
    let mut server = challenged_identity_server();
    server.send_challenge_with_cookie(true, true, message("Speak friend and enter"), Some([5u8; 32])).unwrap();
    server.next_result();
    let arguments = send_response_arguments(&[1u8; 32], &[2u8; 64], &[3u8; 32], &[4u8; 64]);
    let check = match server.exec_function("send_response", 0, arguments, Some(11)) {
        Ok(IdentityServerExec::Verify(check)) => check,
        _ => panic!("the signatures are to be checked"),
    };
    let expected_proof =
        build_client_proof(DomainSeparator::GoslingIdentity, "endpoint", &service_id(1), &service_id(2), &[1u8; 32], &[5u8; 32])
            .unwrap();
    assert_eq!(check.client_proof, Some(expected_proof));
    assert!(check.client_identity.same(&service_id(1)));
    assert_eq!(check.client_identity_proof_signature, [2u8; 64]);
    assert_eq!(check.client_authorization_key.as_bytes(), &[3u8; 32]);
    assert_eq!(check.client_authorization_key_signbit, 0);
    assert_eq!(check.client_authorization_signature, [4u8; 64]);
    // no event before the verdict on the signatures
    assert!(server.update().is_none());
    server.handle_signature_verification(proof_valid, auth_valid).unwrap();
    assert!(matches!(server.handle_signature_verification(true, true), Err(GoslingError::Failure)));
    match server.update() {
        Some(IdentityServerEvent::ChallengeResponseReceived { challenge_response }) => {
            assert_eq!(challenge_response, message("Mellon"))
        }
        _ => panic!("the answer is announced"),
    }
    server
}

#[test]
fn identity_server_does_not_reply_before_the_verdict() {
    let mut server = verified_identity_server(true, true);
    assert_eq!(server.state(), IdentityServerState::GettingChallengeVerification);
    for _ in 0..3 {
        assert!(matches!(server.next_result(), IdentityServerResult::Nothing));
        assert!(server.update().is_none());
    }
    assert_eq!(GoslingChallengeResponseResult::Pending.verdict(), None);
    assert_eq!(GoslingChallengeResponseResult::Invalid.verdict(), Some(false));
    let verdict = GoslingChallengeResponseResult::Valid.verdict().unwrap();
    server.send_challenge_verification(verdict).unwrap();
    assert_eq!(server.send_challenge_verification(verdict), Err(Error::IncorrectUsage));
    assert!(matches!(server.next_result(), IdentityServerResult::GenerateEndpointKey));
    assert!(matches!(server.next_result(), IdentityServerResult::GenerateEndpointKey));
    assert_eq!(server.state(), IdentityServerState::ChallengeVerificationReady);
    server.handle_endpoint_key(GoslingEd25519PrivateKey::from_raw(&[7u8; 64]), service_id(3)).unwrap();
    match server.next_result() {
        IdentityServerResult::Reply { cookie, result: Ok(reply) } => {
            assert_eq!(cookie, 11);
            assert!(matches!(reply, Value::Text(text) if text == service_id(3).to_string()));
        }
        _ => panic!("the endpoint is granted"),
    }
    match server.update() {
        Some(IdentityServerEvent::HandshakeCompleted {
            endpoint_private_key,
            endpoint_name,
            client_service_id,
            client_auth_public_key,
        }) => {
            assert_eq!(endpoint_private_key.to_bytes(), [7u8; 64]);
            assert_eq!(endpoint_name, "endpoint");
            assert!(client_service_id.same(&service_id(1)));
            assert_eq!(client_auth_public_key.as_bytes(), &[3u8; 32]);
        }
        _ => panic!("the handshake completes"),
    }
    assert_eq!(server.state(), IdentityServerState::HandshakeComplete);
    assert!(server.update().is_none());
}

#[test]
fn identity_server_rejects_on_each_signature() {
    for (proof_valid, auth_valid) in [(false, true), (true, false), (false, false)] {
        let mut server = verified_identity_server(proof_valid, auth_valid);
        server.send_challenge_verification(true).unwrap();
        match server.next_result() {
            IdentityServerResult::Reply { cookie, result: Err(error) } => {
                assert_eq!(cookie, 11);
                assert_eq!(error, GoslingError::Failure);
            }
            _ => panic!("the client is turned away"),
        }
        match server.update() {
            Some(IdentityServerEvent::HandshakeRejected {
                client_allowed,
                client_requested_endpoint_valid,
                client_proof_signature_valid,
                client_auth_signature_valid,
                challenge_response_valid,
            }) => {
                assert!(client_allowed && client_requested_endpoint_valid && challenge_response_valid);
                assert_eq!(client_proof_signature_valid, proof_valid);
                assert_eq!(client_auth_signature_valid, auth_valid);
            }
            _ => panic!("the rejection is announced"),
        }
    }
}

#[test]
fn ticks_change_nothing_at_their_second_turn() {
    let mut server = challenged_identity_server();
    assert!(server.update().is_none());
    assert_eq!(server.state(), IdentityServerState::GettingChallenge);
    assert!(server.update().is_none());
    assert_eq!(server.state(), IdentityServerState::GettingChallenge);

    let mut client = waiting_identity_client();
    for _ in 0..3 {
        assert!(matches!(client.update(IdentityClientInput::Tick).unwrap(), IdentityClientOutput::PollResponse));
        assert!(matches!(client.update(IdentityClientInput::NoResponse).unwrap(), IdentityClientOutput::Idle));
        assert_eq!(client.state(), IdentityClientState::WaitingForChallenge);
    }
}

fn channel_request(version: &str, channel: &str) -> Document {
    let mut arguments = Document::new();
    arguments.insert("version", Bson::String(version.to_string()));
    arguments.insert("channel", Bson::String(channel.to_string()));
    arguments
}

#[test]
fn endpoint_server_refuses_what_it_cannot_take() {
    let mut server = EndpointServer::with_server_cookie(service_id(5), service_id(4), [3u8; 32]);
    assert!(matches!(
        server.exec_function("begin_handshake", 0, channel_request("0.0.0.1", "channel"), None),
        Err(GoslingError::RequestCookieRequired)
    ));
    assert!(matches!(
        server.exec_function("begin_handshake", 0, channel_request("0.0.0.0", "channel"), Some(1)),
        Err(GoslingError::BadVersion)
    ));
    assert!(matches!(
        server.exec_function("begin_handshake", 0, channel_request("0.0.0.1", "ch\u{e4}nnel"), Some(1)),
        Err(GoslingError::InvalidArg)
    ));
    assert!(matches!(
        server.exec_function("begin_handshake", 0, Document::new(), Some(1)),
        Err(GoslingError::InvalidArg)
    ));
    assert!(matches!(
        server.exec_function("send_response", 0, Document::new(), Some(1)),
        Ok(EndpointServerExec::Deferred)
    ));
    assert!(matches!(server.handle_signature_verification(true), Err(GoslingError::Failure)));
    assert_eq!(server.state(), EndpointServerState::WaitingForBeginHandshake);
    assert!(matches!(server.update(), Ok(None)));

    match server.exec_function("begin_handshake", 0, channel_request("0.0.0.1", "channel"), Some(1)) {
        Ok(EndpointServerExec::Reply(reply)) => {
            let mut expected = Document::new();
            expected.insert("server_cookie", binary(&[3u8; 32]));
            assert!(matches!(reply, Value::Document(document) if document == expected));
        }
        _ => panic!("the server cookie goes out"),
    }
    assert_eq!(server.state(), EndpointServerState::WaitingForSendResponse);
    // wrong lengths are refused before the channel request was announced
    // as they are after it
    let mut early = Document::new();
    early.insert("client_cookie", binary(&[1u8; 31]));
    early.insert("client_identity", Bson::String(service_id(5).to_string()));
    early.insert("client_identity_proof_signature", binary(&[2u8; 64]));
    assert!(matches!(server.exec_function("send_response", 0, early, Some(2)), Err(GoslingError::InvalidArg)));
    let mut early = Document::new();
    early.insert("client_cookie", binary(&[1u8; 32]));
    early.insert("client_identity", Bson::String(service_id(5).to_string()));
    early.insert("client_identity_proof_signature", binary(&[2u8; 63]));
    assert!(matches!(server.exec_function("send_response", 0, early, Some(2)), Err(GoslingError::InvalidArg)));
    assert_eq!(server.state(), EndpointServerState::WaitingForSendResponse);
    assert!(matches!(server.update(), Ok(Some(EndpointServerEvent::ChannelRequestReceived { .. }))));
    assert!(matches!(server.update(), Ok(None)));

    let client_id = service_id(5).to_string();
    let mut lengths: Vec<Document> = Vec::new();
    for (cookie, signature) in [(31usize, 64usize), (32, 63), (32, 65), (33, 64)] {
        let mut arguments = Document::new();
        arguments.insert("client_cookie", binary(&vec![1u8; cookie]));
        arguments.insert("client_identity", Bson::String(client_id.clone()));
        arguments.insert("client_identity_proof_signature", binary(&vec![2u8; signature]));
        lengths.push(arguments);
    }
    let mut not_an_id = Document::new();
    not_an_id.insert("client_cookie", binary(&[1u8; 32]));
    not_an_id.insert("client_identity", Bson::String("client".to_string()));
    not_an_id.insert("client_identity_proof_signature", binary(&[2u8; 64]));
    lengths.push(not_an_id);
    for arguments in lengths {
        assert!(matches!(
            server.exec_function("send_response", 0, arguments, Some(2)),
            Err(GoslingError::InvalidArg)
        ));
        assert_eq!(server.state(), EndpointServerState::WaitingForSendResponse);
    }
}

#[test]
fn endpoint_servers_draw_their_own_cookies() {
    let mut first = EndpointServer::new(service_id(5), service_id(4)).unwrap();
    let mut second = EndpointServer::new(service_id(5), service_id(4)).unwrap();
    let first_reply = first.exec_function("begin_handshake", 0, channel_request("0.0.0.1", "channel"), Some(1));
    let second_reply = second.exec_function("begin_handshake", 0, channel_request("0.0.0.1", "channel"), Some(1));
    match (first_reply, second_reply) {
        (Ok(EndpointServerExec::Reply(Value::Document(first))), Ok(EndpointServerExec::Reply(Value::Document(second)))) => {
            assert_eq!(first.get_binary_generic("server_cookie").unwrap().len(), 32);
            assert_ne!(first, second);
        }
        _ => panic!("the server cookies go out"),
    }
}

#[test]
fn endpoint_client_fails_on_what_it_cannot_read() {
    let fresh = || {
        let mut client = EndpointClient::new(service_id(4), "channel".to_string(), service_id(5));
        match client.advance(EndpointClientInput::Tick, None).unwrap() {
            EndpointClientOutput::Call(call) => {
                assert_eq!(call.namespace, "gosling_endpoint");
                assert_eq!(call.function, "begin_handshake");
                assert_eq!(call.version, 0);
                assert_eq!(call.arguments, channel_request("0.0.0.1", "channel"));
            }
            _ => panic!("the first tick asks for a call"),
        }
        client.advance(EndpointClientInput::CallIssued { cookie: 3 }, None).unwrap();
        client
    };

    let mut client = fresh();
    let response = Response::Success { cookie: 3, result: Value::Document(Document::new()) };
    assert_eq!(
        client.advance(EndpointClientInput::Response(response), Some([6u8; 32])).err(),
        Some(Error::BadArgument)
    );

    let mut client = fresh();
    let mut reply = Document::new();
    reply.insert("server_cookie", binary(&[3u8; 16]));
    let response = Response::Success { cookie: 3, result: Value::Document(reply) };
    assert_eq!(
        client.advance(EndpointClientInput::Response(response), Some([6u8; 32])).err(),
        Some(Error::BadArgument)
    );

    let mut client = fresh();
    let response = Response::Error { cookie: 3, error_code: 1 };
    assert_eq!(client.advance(EndpointClientInput::Response(response), None).err(), Some(Error::RpcRemote(1)));

    let mut client = fresh();
    let mut reply = Document::new();
    reply.insert("server_cookie", binary(&[3u8; 32]));
    let response = Response::Success { cookie: 3, result: Value::Document(reply.clone()) };
    assert!(client.draws_cookie(&EndpointClientInput::Response(Response::Success {
        cookie: 3,
        result: Value::Document(reply.clone())
    })));
    assert_eq!(client.advance(EndpointClientInput::Response(response), None).err(), Some(Error::EntropyUnavailable));
    let response = Response::Success { cookie: 3, result: Value::Document(reply) };
    let proof = match client.advance(EndpointClientInput::Response(response), Some([6u8; 32])).unwrap() {
        EndpointClientOutput::Sign { client_proof } => client_proof,
        _ => panic!("the proof is signed"),
    };
    let expected =
        build_client_proof(DomainSeparator::GoslingEndpoint, "channel", &service_id(5), &service_id(4), &[6u8; 32], &[3u8; 32])
            .unwrap();
    assert_eq!(proof, expected);
    let call = match client
        .advance(EndpointClientInput::Signed { client_identity_proof_signature: [8u8; 64] }, None)
        .unwrap()
    {
        EndpointClientOutput::Call(call) => call,
        _ => panic!("the proof is sent"),
    };
    let mut arguments = Document::new();
    arguments.insert("client_cookie", binary(&[6u8; 32]));
    arguments.insert("client_identity", Bson::String(service_id(5).to_string()));
    arguments.insert("client_identity_proof_signature", binary(&[8u8; 64]));
    assert_eq!(call.function, "send_response");
    assert_eq!(call.arguments, arguments);
    client.advance(EndpointClientInput::CallIssued { cookie: 4 }, None).unwrap();
    assert_eq!(client.state(), EndpointClientState::WaitingForProofVerification);
    // the grant is a document without entries
    let response = Response::Success { cookie: 4, result: Value::Document(channel_request("0.0.0.1", "channel")) };
    assert_eq!(client.advance(EndpointClientInput::Response(response), None).err(), Some(Error::BadArgument));
    let response = Response::Success { cookie: 4, result: Value::Document(Document::new()) };
    assert!(matches!(
        client.advance(EndpointClientInput::Response(response), None).unwrap(),
        EndpointClientOutput::Event(EndpointClientEvent::HandshakeCompleted)
    ));
}

#[test]
fn identity_server_takes_calls_by_their_plain_arguments() {
    let client_id = service_id(1);
    let mut server = IdentityServer::new(service_id(2));
    // nothing is taken out of turn
    assert!(matches!(
        server.handle_send_response(
            [1u8; 32],
            [2u8; 64],
            GoslingX25519PublicKey::from_raw(&[3u8; 32]),
            true,
            [4u8; 64],
            message("Mellon"),
            11
        ),
        Err(GoslingError::Failure)
    ));
    assert_eq!(
        server.handle_begin_handshake("0.0.0.1".to_string(), "client".to_string(), "endpoint".to_string(), 10),
        Err(GoslingError::InvalidArg)
    );
    assert_eq!(
        server.handle_begin_handshake("0.0.1".to_string(), client_id.to_string(), "endpoint".to_string(), 10),
        Err(GoslingError::BadVersion)
    );
    assert_eq!(
        server.handle_begin_handshake("0.0.0.1".to_string(), client_id.to_string(), "endpoint".to_string(), 10),
        Ok(())
    );
    assert_eq!(
        server.handle_begin_handshake("0.0.0.1".to_string(), client_id.to_string(), "endpoint".to_string(), 10),
        Err(GoslingError::Failure)
    );
    assert!(matches!(server.update(), Some(IdentityServerEvent::EndpointRequestReceived { .. })));
    server.send_challenge_with_cookie(true, true, message("Speak friend and enter"), Some([5u8; 32])).unwrap();
    assert!(matches!(server.next_result(), IdentityServerResult::Reply { cookie: 10, result: Ok(_) }));
    let check = server
        .handle_send_response(
            [1u8; 32],
            [2u8; 64],
            GoslingX25519PublicKey::from_raw(&[3u8; 32]),
            true,
            [4u8; 64],
            message("Mellon"),
            11,
        )
        .unwrap();
    let expected_proof =
        build_client_proof(DomainSeparator::GoslingIdentity, "endpoint", &client_id, &service_id(2), &[1u8; 32], &[5u8; 32])
            .unwrap();
    assert_eq!(check.client_proof, Some(expected_proof));
    assert_eq!(check.client_authorization_key_signbit, 1);
    assert!(check.client_identity.same(&client_id));
}

#[test]
fn identity_server_asks_for_no_proof_of_an_endpoint_that_is_not_ascii() {
    let client_id = service_id(1);
    let mut server = IdentityServer::new(service_id(2));
    server
        .handle_begin_handshake("0.0.0.1".to_string(), client_id.to_string(), "\u{e9}ndpoint".to_string(), 10)
        .unwrap();
    server.update();
    server.send_challenge_with_cookie(true, true, Document::new(), Some([5u8; 32])).unwrap();
    server.next_result();
    let check = server
        .handle_send_response(
            [1u8; 32],
            [2u8; 64],
            GoslingX25519PublicKey::from_raw(&[3u8; 32]),
            false,
            [4u8; 64],
            Document::new(),
            11,
        )
        .unwrap();
    assert!(check.client_proof.is_none());
    // whatever the driver says of the proof signature, it does not count
    server.handle_signature_verification(true, true).unwrap();
    server.update();
    server.send_challenge_verification(true).unwrap();
    assert!(matches!(
        server.next_result(),
        IdentityServerResult::Reply { cookie: 11, result: Err(GoslingError::Failure) }
    ));
    assert!(matches!(
        server.update(),
        Some(IdentityServerEvent::HandshakeRejected {
            client_allowed: true,
            client_requested_endpoint_valid: true,
            client_proof_signature_valid: false,
            client_auth_signature_valid: true,
            challenge_response_valid: true,
        })
    ));
}

#[test]
fn endpoint_server_takes_calls_by_their_plain_arguments() {
    let client_id = service_id(5);
    let mut server = EndpointServer::with_server_cookie(client_id.clone(), service_id(4), [3u8; 32]);
    assert!(matches!(
        server.handle_send_response([6u8; 32], client_id.clone(), [8u8; 64]),
        Err(GoslingError::Failure)
    ));
    assert!(matches!(
        server.handle_begin_handshake("0.0.0.1".to_string(), "ch\u{e4}nnel".to_string()),
        Err(GoslingError::InvalidArg)
    ));
    assert!(matches!(
        server.handle_begin_handshake("1.0.0.0".to_string(), "channel".to_string()),
        Err(GoslingError::BadVersion)
    ));
    match server.handle_begin_handshake("0.0.0.1".to_string(), "channel".to_string()) {
        Ok(Value::Document(reply)) => assert_eq!(reply.get_binary_generic("server_cookie").unwrap(), &vec![3u8; 32]),
        _ => panic!("the server cookie goes out"),
    }
    assert!(matches!(
        server.handle_begin_handshake("0.0.0.1".to_string(), "channel".to_string()),
        Err(GoslingError::Failure)
    ));
    assert!(matches!(server.update(), Ok(Some(EndpointServerEvent::ChannelRequestReceived { .. }))));
    let check = server.handle_send_response([6u8; 32], client_id.clone(), [8u8; 64]).unwrap();
    let expected =
        build_client_proof(DomainSeparator::GoslingEndpoint, "channel", &client_id, &service_id(4), &[6u8; 32], &[3u8; 32])
            .unwrap();
    assert_eq!(check.client_proof, expected);
    assert_eq!(check.client_identity_proof_signature, [8u8; 64]);
    assert!(matches!(
        server.handle_send_response([6u8; 32], client_id.clone(), [8u8; 64]),
        Err(GoslingError::Failure)
    ));
    match server.handle_signature_verification(true) {
        Ok(Value::Document(grant)) => assert!(grant.is_empty()),
        _ => panic!("the channel is granted"),
    }
    assert!(matches!(server.handle_signature_verification(true), Err(GoslingError::Failure)));
    assert_eq!(server.state(), EndpointServerState::HandledSendResponse);
}

#[test]
fn endpoint_server_takes_the_answer_before_it_has_announced_the_request() {
    let client_id = service_id(5);
    let mut server = EndpointServer::with_server_cookie(client_id.clone(), service_id(4), [3u8; 32]);
    assert!(matches!(
        server.exec_function("begin_handshake", 0, channel_request("0.0.0.1", "channel"), Some(1)),
        Ok(EndpointServerExec::Reply(_))
    ));
    // no tick between the two calls
    let mut arguments = Document::new();
    arguments.insert("client_cookie", binary(&[6u8; 32]));
    arguments.insert("client_identity", Bson::String(client_id.to_string()));
    arguments.insert("client_identity_proof_signature", binary(&[8u8; 64]));
    let check = match server.exec_function("send_response", 0, arguments, Some(2)) {
        Ok(EndpointServerExec::Verify(check)) => check,
        _ => panic!("the signature is to be checked"),
    };
    let expected =
        build_client_proof(DomainSeparator::GoslingEndpoint, "channel", &client_id, &service_id(4), &[6u8; 32], &[3u8; 32])
            .unwrap();
    assert_eq!(check.client_proof, expected);
    assert_eq!(server.state(), EndpointServerState::WaitingForSendResponse);
    assert!(matches!(server.handle_signature_verification(true), Ok(Value::Document(grant)) if grant.is_empty()));
    assert_eq!(server.state(), EndpointServerState::HandledSendResponse);
    // the request is announced first, the end after it
    match server.update() {
        Ok(Some(EndpointServerEvent::ChannelRequestReceived { requested_channel })) => {
            assert_eq!(requested_channel, "channel")
        }
        _ => panic!("the channel request is announced first"),
    }
    assert_eq!(server.state(), EndpointServerState::HandledSendResponse);
    match server.update() {
        Ok(Some(EndpointServerEvent::HandshakeCompleted { client_service_id, channel_name })) => {
            assert!(client_service_id.same(&client_id));
            assert_eq!(channel_name, "channel");
        }
        _ => panic!("the handshake completes"),
    }
    assert_eq!(server.state(), EndpointServerState::HandshakeComplete);
    assert_eq!(server.update().err(), Some(Error::InvalidState));
}

#[test]
fn endpoint_server_records_each_flag_whatever_the_other_is() {
    for (allowed, valid) in [(true, true), (true, false), (false, true), (false, false)] {
        let client_id = service_id(5);
        let granted_to = if allowed { client_id.clone() } else { service_id(6) };
        let mut server = EndpointServer::with_server_cookie(granted_to, service_id(4), [3u8; 32]);
        server.handle_begin_handshake("0.0.0.1".to_string(), "channel".to_string()).unwrap();
        server.handle_send_response([6u8; 32], client_id.clone(), [8u8; 64]).unwrap();
        let reply = server.handle_signature_verification(valid);
        assert_eq!(reply.is_ok(), allowed && valid);
        if let Err(error) = reply {
            assert_eq!(error, GoslingError::Failure);
        }
        assert_eq!(server.state(), EndpointServerState::HandledSendResponse);
        assert!(matches!(server.update(), Ok(Some(EndpointServerEvent::ChannelRequestReceived { .. }))));
        match server.update() {
            Ok(Some(EndpointServerEvent::HandshakeCompleted { .. })) => assert!(allowed && valid),
            Ok(Some(EndpointServerEvent::HandshakeRejected {
                client_allowed,
                client_requested_channel_valid,
                client_proof_signature_valid,
            })) => {
                assert!(!(allowed && valid));
                assert_eq!(client_allowed, allowed);
                assert!(client_requested_channel_valid);
                assert_eq!(client_proof_signature_valid, valid);
            }
            _ => panic!("the handshake ends"),
        }
    }
}

#[test]
fn drawn_cookies_have_32_bytes() {
    let mut server = EndpointServer::new(service_id(5), service_id(4)).unwrap();
    match server.handle_begin_handshake("0.0.0.1".to_string(), "channel".to_string()) {
        Ok(Value::Document(reply)) => assert_eq!(reply.get_binary_generic("server_cookie").unwrap().len(), 32),
        _ => panic!("the server cookie goes out"),
    }
    let mut server = challenged_identity_server();
    server.send_challenge(true, true, Document::new()).unwrap();
    match server.next_result() {
        IdentityServerResult::Reply { result: Ok(Value::Document(reply)), .. } => {
            assert_eq!(reply.get_binary_generic("server_cookie").unwrap().len(), 32)
        }
        _ => panic!("the challenge goes out"),
    }
}
