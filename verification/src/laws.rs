//! What holds of the handshakes, whatever the peers and the driver do.

use vstd::prelude::*;
use vstd::string::*;
use crate::client_proof::{client_proof, DomainSeparator};
use crate::document::{shape_at, Shape, Value};
use crate::context::{ContextEvent, ContextView, EndpointClientStep, IdentityClientStep};
use crate::endpoint_client::{
    server_cookie_reply, EndpointClientEvent, EndpointClientInput, EndpointClientOutput,
    EndpointClientView,
};
use crate::endpoint_server::{
    channel_request_arguments, channel_response_arguments, EndpointServerEvent, EndpointServerExec,
    EndpointServerView,
};
use crate::error::{Error, GoslingError};
use crate::identity_client::{
    IdentityClientEvent, IdentityClientInput, IdentityClientOutput, IdentityClientView,
    IdentityProofSignatures,
};
use crate::identity_server::{
    begin_handshake_arguments, send_response_arguments, BeginHandshakeArguments,
    IdentityServerEvent, IdentityServerExec, IdentityServerResult, IdentityServerView,
    SendResponseArguments,
};
use crate::rpc::{gosling_version, Call, RequestCookie, Response};
use crate::service_id::is_service_id_text;
use crate::table::HandshakeHandle;

verus! {

/// The endpoint that an identity client is told of is the endpoint whose
/// private key the identity server retains: where every check of the
/// handshake has passed and the server holds the endpoint's key, the reply
/// that the server hands out carries the service id that came with that
/// key, the client that takes the reply completes with that service id,
/// and the server completes with that key.
pub proof fn law_granted_endpoint_is_the_one_retained(
    server: IdentityServerView,
    handed_out: IdentityServerResult,
    server_event: Option<IdentityServerEvent>,
    client: IdentityClientView,
    client_output: IdentityClientOutput,
)
    requires
        server.state is ChallengeVerificationReady,
        server.succeeded(),
        server.send_response_request_cookie is Some,
        server.endpoint_private_key is Some,
        server.endpoint_service_id is Some,
        is_service_id_text(server.endpoint_service_id.unwrap()),
        server.client_identity is Some,
        server.requested_endpoint is Some,
        server.client_auth_key is Some,
        server.hands_out(handed_out),
        server.after_next_result().announces(server_event),
        client.state is WaitingForChallengeVerification,
        client.send_response_request_cookie == server.send_response_request_cookie,
        handed_out matches IdentityServerResult::Reply { cookie, result: Ok(reply) } ==> {
            let input = IdentityClientInput::Response(Response::Success { cookie, result: reply });
            client.next(input, None) matches Ok(next) ==> client.emits(input, next, client_output)
        },
    ensures
        handed_out matches IdentityServerResult::Reply { cookie, result: Ok(reply) } && {
            let input = IdentityClientInput::Response(Response::Success { cookie, result: reply });
            &&& client.next(input, None) matches Ok(next)
            &&& next.state is HandshakeComplete
            &&& client_output matches IdentityClientOutput::Event(
                IdentityClientEvent::HandshakeCompleted { endpoint_service_id, .. },
            )
            &&& endpoint_service_id@ == server.endpoint_service_id.unwrap()
        },
        server_event matches Some(IdentityServerEvent::HandshakeCompleted { endpoint_private_key, .. })
            && endpoint_private_key@ == server.endpoint_private_key.unwrap(),
{
}

/// Both sides of the identity handshake make the same client proof. The
/// client holds both cookies and has been asked to sign; the server has
/// sent its challenge to this client for the endpoint that the client
/// asked for. The server takes the client's `send_response` call, and
/// asks to have the two signatures that came with it checked: the first
/// against the very client proof that the client signed, under the
/// client's service id, and the second under the key and the sign bit
/// that the client sent.
pub proof fn law_identity_proof_is_shared(
    client: IdentityClientView,
    server: IdentityServerView,
    signatures: IdentityProofSignatures,
    call: Call,
    request_cookie: RequestCookie,
    answer: IdentityServerExec,
)
    requires
        client.state is WaitingForChallengeResponse,
        client.endpoint_challenge_response is Some,
        client.client_cookie is Some,
        client.client_cookie.unwrap().len() == 32,
        client.server_cookie == server.server_cookie,
        vstd::utf8::is_ascii_chars(client.requested_endpoint),
        signatures.client_authorization_key_signbit <= 1,
        server.takes_send_response(),
        server.client_identity == Some(client.client_service_id),
        server.requested_endpoint == Some(client.requested_endpoint),
        server.server_identity == client.server_service_id,
        client.emits(
            IdentityClientInput::Signed(signatures),
            client.after_signed(signatures).unwrap(),
            IdentityClientOutput::Call(call),
        ),
        server.answers("send_response"@, call.arguments, answer),
    ensures
        client.after_signed(signatures) is Ok,
        server.after_call("send_response"@, 0, call.arguments, Some(request_cookie)) matches Ok(taken) && {
            &&& taken.client_auth_key == Some(signatures.client_authorization_key@)
            &&& taken.challenge_response == client.endpoint_challenge_response
            &&& taken.awaits_signature_verdict()
        },
        answer matches IdentityServerExec::Verify(check) && {
            &&& check.client_identity@ == client.client_service_id
            &&& check.client_identity_proof_signature@ == signatures.client_identity_proof_signature@
            &&& check.client_authorization_key@ == signatures.client_authorization_key@
            &&& check.client_authorization_key_signbit == signatures.client_authorization_key_signbit
            &&& check.client_authorization_signature@ == signatures.client_authorization_signature@
            &&& check.client_proof matches Some(bytes)
            &&& bytes@ == client_proof(
                DomainSeparator::GoslingIdentity,
                client.requested_endpoint,
                client.client_service_id,
                client.server_service_id,
                client.client_cookie.unwrap(),
                client.server_cookie.unwrap(),
            )
        },
{
    reveal_strlit("send_response");
    reveal_strlit("begin_handshake");
    assert("send_response"@.len() != "begin_handshake"@.len());
    reveal_strlit("client_cookie");
    reveal_strlit("client_identity_proof_signature");
    reveal_strlit("client_authorization_key");
    reveal_strlit("client_authorization_key_signbit");
    reveal_strlit("client_authorization_signature");
    reveal_strlit("challenge_response");
    assert("client_cookie"@.len() == 13);
    assert("client_identity_proof_signature"@.len() == 31);
    assert("client_authorization_key"@.len() == 24);
    assert("client_authorization_key_signbit"@.len() == 32);
    assert("client_authorization_signature"@.len() == 30);
    assert("challenge_response"@.len() == 18);
    let arguments = call.arguments;
    assert(shape_at(arguments, "client_cookie"@) == Some(Shape::Binary(client.client_cookie.unwrap())));
    assert(shape_at(arguments, "client_identity_proof_signature"@) == Some(
        Shape::Binary(signatures.client_identity_proof_signature@),
    ));
    assert(shape_at(arguments, "client_authorization_key"@) == Some(
        Shape::Binary(signatures.client_authorization_key@),
    ));
    assert(shape_at(arguments, "client_authorization_key_signbit"@) == Some(
        Shape::Boolean(signatures.client_authorization_key_signbit == 1),
    ));
    assert(shape_at(arguments, "client_authorization_signature"@) == Some(
        Shape::Binary(signatures.client_authorization_signature@),
    ));
    assert(shape_at(arguments, "challenge_response"@) == Some(
        Shape::Document(client.endpoint_challenge_response.unwrap()),
    ));
    assert(send_response_arguments(arguments) is Some);
}

/// The identity server does not answer `send_response` before the
/// application has judged the client's answer. A reply that is not the
/// challenge goes out only after `send_challenge_verification`, and
/// nothing else brings the server to where that reply goes out.
pub proof fn law_identity_verdict_precedes_reply(
    server: IdentityServerView,
    handed_out: IdentityServerResult,
    name: Seq<char>,
    version: i32,
    arguments: bson::Document,
    request_cookie: Option<RequestCookie>,
    flag_a: bool,
    flag_b: bool,
    challenge: bson::Document,
    drawn: Option<Seq<u8>>,
    private_key: Seq<u8>,
    service_id: Seq<char>,
)
    requires
        server.hands_out(handed_out),
    ensures
        handed_out is Reply && !(server.state is ChallengeReady) ==> server.state is ChallengeVerificationReady,
        server.after_call(name, version, arguments, request_cookie) matches Ok(next) && next.state
            is ChallengeVerificationReady ==> server.state is ChallengeVerificationReady,
        server.after_signature_verdict(flag_a, flag_b) matches Ok(next) && next.state
            is ChallengeVerificationReady ==> server.state is ChallengeVerificationReady,
        server.after_send_challenge(flag_a, flag_b, challenge, drawn) matches Ok(next) ==> !(next.state
            is ChallengeVerificationReady),
        server.after_endpoint_key(private_key, service_id) matches Ok(next) && next.state
            is ChallengeVerificationReady ==> server.state is ChallengeVerificationReady,
        server.after_next_result().state is ChallengeVerificationReady ==> server.state
            is ChallengeVerificationReady,
        server.after_update().state is ChallengeVerificationReady ==> server.state
            is ChallengeVerificationReady,
        server.after_send_challenge_verification(flag_a) matches Ok(next) ==> server.state
            is GettingChallengeVerification && next.state is ChallengeVerificationReady,
{
}

/// The identity server does not send its challenge before the
/// application has supplied it: the challenge goes out only from the
/// state that `send_challenge` leads to.
pub proof fn law_identity_challenge_follows_send_challenge(
    server: IdentityServerView,
    handed_out: IdentityServerResult,
)
    requires
        server.hands_out(handed_out),
        handed_out is Reply,
        !(server.state is ChallengeVerificationReady),
    ensures
        server.state is ChallengeReady,
        server.endpoint_challenge is Some,
{
}

/// The endpoint server never answers `send_response` at once: the call
/// is answered with a signature to check, and the reply is what
/// `handle_signature_verification` makes of the verdict.
pub proof fn law_endpoint_verdict_precedes_reply(
    server: EndpointServerView,
    arguments: bson::Document,
    request_cookie: Option<RequestCookie>,
    answer: EndpointServerExec,
)
    requires
        server.after_call("send_response"@, 0, arguments, request_cookie) is Ok,
        server.answers("send_response"@, 0, arguments, answer),
    ensures
        !(answer is Reply),
{
    reveal_strlit("send_response");
    reveal_strlit("begin_handshake");
    assert("send_response"@.len() != "begin_handshake"@.len());
}

/// A tick of an identity client changes nothing at its second turn: two
/// ticks in a row leave the client where one tick leaves it. A look for
/// a response that finds none changes nothing at all.
pub proof fn law_identity_client_tick_is_idempotent(
    client: IdentityClientView,
    drawn_first: Option<Seq<u8>>,
    drawn_second: Option<Seq<u8>>,
)
    ensures
        client.next(IdentityClientInput::Tick, drawn_first) matches Ok(next) ==> next.next(
            IdentityClientInput::Tick,
            drawn_second,
        ) == Ok::<IdentityClientView, Error>(next),
        client.next(IdentityClientInput::NoResponse, drawn_first) matches Ok(next) ==> next == client,
{
}

/// A tick of an endpoint client changes nothing, and neither does a look
/// for a response that finds none.
pub proof fn law_endpoint_client_tick_is_idempotent(client: EndpointClientView, drawn: Option<Seq<u8>>)
    ensures
        client.next(EndpointClientInput::Tick, drawn) matches Ok(next) ==> next == client,
        client.next(EndpointClientInput::NoResponse, drawn) matches Ok(next) ==> next == client,
{
}

/// A tick of an identity server changes nothing at its second turn.
pub proof fn law_identity_server_tick_is_idempotent(server: IdentityServerView)
    ensures
        server.after_update().after_update() == server.after_update(),
{
}

/// What holds of every identity server that was made by
/// `IdentityServer::new` and changed by its own functions: what it holds
/// goes with where it stands. The endpoint's key is held together with
/// its service id, and only by a server whose handshake has passed every
/// check and has had the application's last answer; a server that has
/// sent its last reply holds the key exactly where every check has
/// passed; and each state holds what the states before it have stored.
pub open spec fn identity_server_is_orderly(server: IdentityServerView) -> bool {
    let answered = server.state is ChallengeVerificationReady || server.state
        is ChallengeVerificationResponseSent || server.state is HandshakeComplete;
    let replied = server.state is ChallengeVerificationResponseSent || server.state is HandshakeComplete;
    &&& server.endpoint_private_key is Some <==> server.endpoint_service_id is Some
    &&& server.endpoint_private_key is Some ==> server.succeeded() && answered
    &&& replied && server.succeeded() ==> server.endpoint_private_key is Some
    &&& server.begin_handshake_request_cookie is Some <==> server.client_identity is Some
    &&& server.client_identity is Some <==> server.requested_endpoint is Some
    &&& !(server.state is WaitingForBeginHandshake) ==> server.client_identity is Some
    &&& server.state is WaitingForBeginHandshake || server.state is GettingChallenge ==> server.server_cookie
        is None && server.send_response_request_cookie is None
    &&& server.state is ChallengeReady ==> server.endpoint_challenge is Some && server.send_response_request_cookie
        is None
    &&& !(server.state is WaitingForBeginHandshake || server.state is GettingChallenge) ==> server.server_cookie
        is Some
    &&& server.send_response_request_cookie is Some <==> server.client_auth_key is Some
    &&& server.signatures_checked ==> server.send_response_request_cookie is Some
    &&& server.state is WaitingForSendResponse && server.send_response_request_cookie is Some
        ==> server.challenge_response is Some
    &&& server.state is GettingChallengeVerification || answered ==> server.send_response_request_cookie is Some
        && server.signatures_checked
}

/// A new identity server is orderly, and every function of an identity
/// server keeps it so.
pub proof fn law_identity_server_stays_orderly(
    server: IdentityServerView,
    server_identity: Seq<char>,
    name: Seq<char>,
    version: i32,
    arguments: bson::Document,
    request_cookie: Option<RequestCookie>,
    begin_handshake: BeginHandshakeArguments,
    send_response: SendResponseArguments,
    cookie: RequestCookie,
    flag_a: bool,
    flag_b: bool,
    challenge: bson::Document,
    drawn: Option<Seq<u8>>,
    private_key: Seq<u8>,
    service_id: Seq<char>,
)
    requires
        identity_server_is_orderly(server),
    ensures
        identity_server_is_orderly(IdentityServerView::initial(server_identity)),
        server.after_call(name, version, arguments, request_cookie) matches Ok(next)
            ==> identity_server_is_orderly(next),
        server.after_begin_handshake_of(begin_handshake, cookie) matches Ok(next) ==> identity_server_is_orderly(
            next,
        ),
        server.after_send_response_of(send_response, cookie) matches Ok(next) ==> identity_server_is_orderly(
            next,
        ),
        server.after_signature_verdict(flag_a, flag_b) matches Ok(next) ==> identity_server_is_orderly(next),
        server.after_send_challenge(flag_a, flag_b, challenge, drawn) matches Ok(next)
            ==> identity_server_is_orderly(next),
        server.after_send_challenge_verification(flag_a) matches Ok(next) ==> identity_server_is_orderly(next),
        server.after_endpoint_key(private_key, service_id) matches Ok(next) ==> identity_server_is_orderly(next),
        identity_server_is_orderly(server.after_next_result()),
        identity_server_is_orderly(server.after_update()),
{
}

/// The last event of an identity server goes by the five checks: the
/// tick of an orderly server that has sent its last reply announces the
/// completion of the handshake where every check has passed, with the
/// key that the server holds, and its rejection where one has not.
pub proof fn law_identity_server_ends_by_its_checks(
    server: IdentityServerView,
    event: Option<IdentityServerEvent>,
)
    requires
        identity_server_is_orderly(server),
        server.state is ChallengeVerificationResponseSent,
        server.announces(event),
    ensures
        server.after_update().state is HandshakeComplete,
        server.succeeded() ==> event matches Some(IdentityServerEvent::HandshakeCompleted { .. }),
        !server.succeeded() ==> event matches Some(IdentityServerEvent::HandshakeRejected { .. }),
{
}

/// An orderly identity server does not get stuck on what it holds: where
/// the challenge is ready, or the application has given its last answer,
/// the server has something for the RPC session or asks for the
/// endpoint's key.
pub proof fn law_identity_server_replies_when_ready(
    server: IdentityServerView,
    handed_out: IdentityServerResult,
)
    requires
        identity_server_is_orderly(server),
        server.state is ChallengeReady || server.state is ChallengeVerificationReady,
        server.hands_out(handed_out),
    ensures
        !(handed_out is Nothing),
        handed_out is GenerateEndpointKey <==> server.awaits_endpoint_key(),
{
}

/// What holds of every endpoint server that was made by
/// `EndpointServer::new` and changed by its own functions: what it holds
/// goes with where it stands. A server that waits for its first call
/// holds nothing of its client; a server that has handled the client's
/// answer holds the channel, the client and the outcome; the outcome is
/// the conjunction of the three checks; the channel is always taken as
/// valid; and a server whose handshake has come to its end has announced
/// the channel request.
pub open spec fn endpoint_server_is_orderly(server: EndpointServerView) -> bool {
    &&& server.client_requested_channel_valid
    &&& server.state is WaitingForBeginHandshake ==> server.requested_channel is None && !server.channel_announced
    &&& server.requested_channel is None ==> server.client_identity is None
    &&& !(server.state is WaitingForBeginHandshake) ==> server.requested_channel is Some
    &&& server.state is WaitingForBeginHandshake || server.state is WaitingForSendResponse
        ==> server.handshake_succeeded is None
    &&& server.state is HandledSendResponse || server.state is HandshakeComplete ==> server.client_identity
        is Some && server.handshake_succeeded == Some(server.succeeds_on(server.client_proof_signature_valid))
    &&& server.state is HandshakeComplete ==> server.channel_announced
}

/// A new endpoint server is orderly, and every function of an endpoint
/// server keeps it so.
pub proof fn law_endpoint_server_stays_orderly(
    server: EndpointServerView,
    allowed_client: Seq<char>,
    server_identity: Seq<char>,
    server_cookie: Seq<u8>,
    name: Seq<char>,
    version: i32,
    arguments: bson::Document,
    request_cookie: Option<RequestCookie>,
    call_version: Seq<char>,
    channel: Seq<char>,
    client_identity: Seq<char>,
    proof_signature_valid: bool,
)
    requires
        endpoint_server_is_orderly(server),
    ensures
        endpoint_server_is_orderly(EndpointServerView::initial(allowed_client, server_identity, server_cookie)),
        server.after_call(name, version, arguments, request_cookie) matches Ok(next)
            ==> endpoint_server_is_orderly(next),
        server.after_begin_handshake_of(call_version, channel) matches Ok(next) ==> endpoint_server_is_orderly(
            next,
        ),
        server.after_send_response_of(client_identity) matches Ok(next) ==> endpoint_server_is_orderly(next),
        endpoint_server_is_orderly(server.after_signature_verdict(proof_signature_valid)),
        server.after_update() matches Ok(next) ==> endpoint_server_is_orderly(next),
{
}

/// A tick of an endpoint server changes nothing at its second turn,
/// where the server takes a second tick at all. The one server of which
/// this does not hold is left out: the server that has handled the
/// client's answer before it has announced the channel request, whose
/// first tick announces the request and whose second tick announces the
/// end.
pub proof fn law_endpoint_server_tick_is_idempotent(server: EndpointServerView)
    requires
        !(server.state is HandledSendResponse && server.announces_request()),
    ensures
        server.after_update() matches Ok(once) ==> (once.after_update() matches Ok(twice) ==> twice == once),
        server.state is WaitingForBeginHandshake || server.state is WaitingForSendResponse ==> {
            &&& server.after_update() matches Ok(once)
            &&& once.after_update() == Ok::<EndpointServerView, Error>(once)
        },
{
}

/// The channel request is announced before the end of the handshake. A
/// tick of an orderly server that announces the end of the handshake is
/// the tick of a server that has announced the channel request; and a
/// server that has handled the client's answer comes to its end with its
/// first tick where the request was announced, and with its second tick
/// where it was not.
pub proof fn law_endpoint_request_is_announced_first(
    server: EndpointServerView,
    event: Option<EndpointServerEvent>,
)
    requires
        endpoint_server_is_orderly(server),
        server.announces(event),
    ensures
        event matches Some(announced) && !(announced is ChannelRequestReceived) ==> server.channel_announced,
        server.state is HandledSendResponse ==> {
            &&& server.after_update() matches Ok(once)
            &&& if server.channel_announced {
                once.state is HandshakeComplete && event is Some && !(event.unwrap() is ChannelRequestReceived)
            } else {
                &&& event matches Some(EndpointServerEvent::ChannelRequestReceived { .. })
                &&& once.state is HandledSendResponse
                &&& once.after_update() matches Ok(twice)
                &&& twice.state is HandshakeComplete
            }
        },
{
}

/// The first round of the endpoint handshake. A client with an ASCII
/// channel name asks for its first call; the server that waits for it
/// takes that call, stores the channel that the client asked for, and
/// replies with its cookie; and the client that takes the reply asks to
/// have signed the client proof that is made of the channel, the two
/// service ids and the two cookies.
pub proof fn law_endpoint_channel_request_round(
    client: EndpointClientView,
    server: EndpointServerView,
    call: Call,
    request_cookie: RequestCookie,
    reply: Value,
    client_cookie: Seq<u8>,
    sign_output: EndpointClientOutput,
)
    requires
        client.state is BeginHandshake,
        client.server_cookie is None,
        vstd::utf8::is_ascii_chars(client.requested_channel),
        server.takes_begin_handshake(),
        server.server_cookie.len() == 32,
        client.emits(EndpointClientInput::Tick, client, EndpointClientOutput::Call(call)),
        server.answers("begin_handshake"@, 0, call.arguments, EndpointServerExec::Reply(reply)),
        ({
            let waiting = client.after_call_issued(request_cookie).unwrap();
            let input = EndpointClientInput::Response(Response::Success { cookie: request_cookie, result: reply });
            waiting.next(input, Some(client_cookie)) matches Ok(next) ==> waiting.emits(input, next, sign_output)
        }),
    ensures
        client.next(EndpointClientInput::Tick, None) == Ok::<EndpointClientView, Error>(client),
        client.after_call_issued(request_cookie) is Ok,
        server.after_call("begin_handshake"@, 0, call.arguments, Some(request_cookie)) matches Ok(listening) && {
            &&& listening.state is WaitingForSendResponse
            &&& listening.requested_channel == Some(client.requested_channel)
        },
        ({
            let waiting = client.after_call_issued(request_cookie).unwrap();
            let input = EndpointClientInput::Response(Response::Success { cookie: request_cookie, result: reply });
            &&& waiting.next(input, Some(client_cookie)) matches Ok(next)
            &&& next.server_cookie == Some(server.server_cookie)
            &&& next.client_cookie == Some(client_cookie)
            &&& sign_output matches EndpointClientOutput::Sign { client_proof: bytes }
            &&& bytes@ == client_proof(
                DomainSeparator::GoslingEndpoint,
                client.requested_channel,
                client.client_service_id,
                client.server_service_id,
                client_cookie,
                server.server_cookie,
            )
        }),
{
    reveal_strlit("version");
    reveal_strlit("channel");
    reveal_strlit("server_cookie");
    assert("version"@[0] == 'v');
    assert("channel"@[0] == 'c');
    let arguments = call.arguments;
    assert(shape_at(arguments, "version"@) == Some(Shape::Text(gosling_version())));
    assert(shape_at(arguments, "channel"@) == Some(Shape::Text(client.requested_channel)));
    assert(channel_request_arguments(arguments) == Some((gosling_version(), client.requested_channel)));
    assert(server_cookie_reply(reply) == Some(server.server_cookie));
}

/// The second round of the endpoint handshake. The client holds both
/// cookies and the server holds the channel that this client asked for.
/// The server takes the client's `send_response` call, whether or not a
/// tick has announced the channel request, and asks to have the signature
/// checked against the very client proof that the client had signed.
/// Where the client is the one that the endpoint was granted to and the
/// signature is found valid, the server grants the channel, the client
/// completes, and the server completes with the client's service id and
/// the channel that the client asked for: at its next tick where the
/// channel request was announced, and else at the tick after the one
/// that announces the request.
pub proof fn law_endpoint_channel_opens(
    client: EndpointClientView,
    server: EndpointServerView,
    signature: [u8; 64],
    call: Call,
    request_cookie: RequestCookie,
    answer: EndpointServerExec,
    granted: Result<Value, GoslingError>,
    client_output: EndpointClientOutput,
    first_event: Option<EndpointServerEvent>,
    second_event: Option<EndpointServerEvent>,
)
    requires
        client.state is WaitingForServerCookie,
        client.server_cookie == Some(server.server_cookie),
        client.client_cookie is Some,
        client.client_cookie.unwrap().len() == 32,
        !client.call_handed_out,
        is_service_id_text(client.client_service_id),
        vstd::utf8::is_ascii_chars(client.requested_channel),
        server.takes_send_response(),
        server.requested_channel == Some(client.requested_channel),
        server.server_identity == client.server_service_id,
        server.allowed_client_identity == client.client_service_id,
        server.client_requested_channel_valid,
        client.emits(
            (EndpointClientInput::Signed { client_identity_proof_signature: signature }),
            client.after_signed().unwrap(),
            EndpointClientOutput::Call(call),
        ),
        server.answers("send_response"@, 0, call.arguments, answer),
        ({
            let taken = server.after_call("send_response"@, 0, call.arguments, Some(request_cookie)).unwrap();
            &&& taken.replies(true, granted)
            &&& taken.after_signature_verdict(true).announces(first_event)
            &&& taken.after_signature_verdict(true).after_update() matches Ok(ticked) ==> ticked.announces(
                second_event,
            )
        }),
        ({
            let sent = client.after_signed().unwrap().after_call_issued(request_cookie).unwrap();
            granted matches Ok(grant) ==> {
                let input = EndpointClientInput::Response(Response::Success { cookie: request_cookie, result: grant });
                sent.next(input, None) matches Ok(next) ==> sent.emits(input, next, client_output)
            }
        }),
    ensures
        client.after_signed() is Ok,
        client.after_signed().unwrap().after_call_issued(request_cookie) is Ok,
        answer matches EndpointServerExec::Verify(check) && {
            &&& check.client_identity@ == client.client_service_id
            &&& check.client_identity_proof_signature@ == signature@
            &&& check.client_proof@ == client_proof(
                DomainSeparator::GoslingEndpoint,
                client.requested_channel,
                client.client_service_id,
                client.server_service_id,
                client.client_cookie.unwrap(),
                server.server_cookie,
            )
        },
        server.after_call("send_response"@, 0, call.arguments, Some(request_cookie)) matches Ok(taken) && {
            &&& taken.client_allowed
            &&& taken.after_signature_verdict(true).handshake_succeeded == Some(true)
        },
        granted matches Ok(grant) && {
            let sent = client.after_signed().unwrap().after_call_issued(request_cookie).unwrap();
            let input = EndpointClientInput::Response(Response::Success { cookie: request_cookie, result: grant });
            &&& sent.next(input, None) matches Ok(next)
            &&& next.state is HandshakeComplete
            &&& client_output matches EndpointClientOutput::Event(EndpointClientEvent::HandshakeCompleted)
        },
        ({
            let last_event = if server.channel_announced {
                first_event
            } else {
                second_event
            };
            &&& last_event matches Some(
                EndpointServerEvent::HandshakeCompleted { client_service_id, channel_name },
            )
            &&& client_service_id@ == client.client_service_id
            &&& channel_name@ == client.requested_channel
        }),
        !server.channel_announced ==> {
            &&& first_event matches Some(EndpointServerEvent::ChannelRequestReceived { requested_channel })
            &&& requested_channel@ == client.requested_channel
        },
{
    reveal_strlit("send_response");
    reveal_strlit("begin_handshake");
    assert("send_response"@.len() != "begin_handshake"@.len());
    reveal_strlit("client_cookie");
    reveal_strlit("client_identity");
    reveal_strlit("client_identity_proof_signature");
    assert("client_cookie"@.len() == 13);
    assert("client_identity"@.len() == 15);
    assert("client_identity_proof_signature"@.len() == 31);
    let arguments = call.arguments;
    assert(shape_at(arguments, "client_cookie"@) == Some(Shape::Binary(client.client_cookie.unwrap())));
    assert(shape_at(arguments, "client_identity"@) == Some(Shape::Text(client.client_service_id)));
    assert(shape_at(arguments, "client_identity_proof_signature"@) == Some(Shape::Binary(signature@)));
    assert(channel_response_arguments(arguments) is Some);
}

/// A client does not send a call for a name that is not ASCII: the
/// first tick of such a client fails with `BadArgument`, so that nothing
/// is handed to the RPC session.
pub proof fn law_names_are_ascii(
    identity_client: IdentityClientView,
    endpoint_client: EndpointClientView,
    drawn: Option<Seq<u8>>,
)
    requires
        identity_client.state is BeginHandshake,
        endpoint_client.state is BeginHandshake,
    ensures
        !vstd::utf8::is_ascii_chars(identity_client.requested_endpoint) ==> identity_client.next(
            IdentityClientInput::Tick,
            drawn,
        ) == Err::<IdentityClientView, Error>(Error::BadArgument),
        !vstd::utf8::is_ascii_chars(endpoint_client.requested_channel) ==> endpoint_client.next(
            EndpointClientInput::Tick,
            drawn,
        ) == Err::<EndpointClientView, Error>(Error::BadArgument),
{
}

/// A peer that speaks another version is told so, and gives up: a server
/// that waits for `begin_handshake` refuses well-formed arguments of
/// another version with `BadVersion`, and a client that is answered with
/// the code of an error fails with that code as `RpcRemote`.
pub proof fn law_version_mismatch(
    identity_server: IdentityServerView,
    endpoint_server: EndpointServerView,
    arguments: bson::Document,
    request_cookie: RequestCookie,
    identity_client: IdentityClientView,
    endpoint_client: EndpointClientView,
    error_code: i32,
)
    requires
        identity_server.takes_begin_handshake(),
        endpoint_server.takes_begin_handshake(),
        identity_client.state is WaitingForChallenge,
        identity_client.begin_handshake_request_cookie == Some(request_cookie),
        endpoint_client.state is WaitingForServerCookie,
        endpoint_client.server_cookie is None,
        endpoint_client.begin_handshake_request_cookie == Some(request_cookie),
    ensures
        begin_handshake_arguments(arguments) matches Some(read) && is_service_id_text(read.client_identity)
            && read.version != gosling_version() ==> identity_server.after_call(
            "begin_handshake"@,
            0,
            arguments,
            Some(request_cookie),
        ) == Err::<IdentityServerView, GoslingError>(GoslingError::BadVersion),
        channel_request_arguments(arguments) matches Some(read) && vstd::utf8::is_ascii_chars(read.1) && read.0
            != gosling_version() ==> endpoint_server.after_call(
            "begin_handshake"@,
            0,
            arguments,
            Some(request_cookie),
        ) == Err::<EndpointServerView, GoslingError>(GoslingError::BadVersion),
        GoslingError::BadVersion.spec_code() == 1,
        identity_client.next(
            IdentityClientInput::Response(Response::Error { cookie: request_cookie, error_code }),
            None,
        ) == Err::<IdentityClientView, Error>(Error::RpcRemote(error_code)),
        endpoint_client.next(
            EndpointClientInput::Response(Response::Error { cookie: request_cookie, error_code }),
            None,
        ) == Err::<EndpointClientView, Error>(Error::RpcRemote(error_code)),
{
}

/// A cookie, a key or a signature of the wrong length is refused: the
/// servers answer a `send_response` call whose binary arguments do not
/// have their lengths with `InvalidArg`.
pub proof fn law_wrong_lengths_are_refused(
    identity_server: IdentityServerView,
    endpoint_server: EndpointServerView,
    arguments: bson::Document,
    request_cookie: RequestCookie,
)
    requires
        identity_server.takes_send_response(),
        endpoint_server.takes_send_response(),
    ensures
        (shape_at(arguments, "client_cookie"@) matches Some(Shape::Binary(bytes)) && bytes.len() != 32)
            ==> identity_server.after_call("send_response"@, 0, arguments, Some(request_cookie)) == Err::<
            IdentityServerView,
            GoslingError,
        >(GoslingError::InvalidArg) && endpoint_server.after_call(
            "send_response"@,
            0,
            arguments,
            Some(request_cookie),
        ) == Err::<EndpointServerView, GoslingError>(GoslingError::InvalidArg),
        (shape_at(arguments, "client_identity_proof_signature"@) matches Some(Shape::Binary(bytes))
            && bytes.len() != 64) ==> identity_server.after_call(
            "send_response"@,
            0,
            arguments,
            Some(request_cookie),
        ) == Err::<IdentityServerView, GoslingError>(GoslingError::InvalidArg) && endpoint_server.after_call(
            "send_response"@,
            0,
            arguments,
            Some(request_cookie),
        ) == Err::<EndpointServerView, GoslingError>(GoslingError::InvalidArg),
        (shape_at(arguments, "client_authorization_key"@) matches Some(Shape::Binary(bytes)) && bytes.len()
            != 32) ==> identity_server.after_call("send_response"@, 0, arguments, Some(request_cookie)) == Err::<
            IdentityServerView,
            GoslingError,
        >(GoslingError::InvalidArg),
        (shape_at(arguments, "client_authorization_signature"@) matches Some(Shape::Binary(bytes))
            && bytes.len() != 64) ==> identity_server.after_call(
            "send_response"@,
            0,
            arguments,
            Some(request_cookie),
        ) == Err::<IdentityServerView, GoslingError>(GoslingError::InvalidArg),
{
    reveal_strlit("send_response");
    reveal_strlit("begin_handshake");
    assert("send_response"@.len() != "begin_handshake"@.len());
}

/// An answer to an endpoint request is taken once: after
/// `send_challenge` has succeeded, a second `send_challenge` fails with
/// `IncorrectUsage`, whatever it is called with. The same holds of the
/// verdict on the answer to the challenge.
pub proof fn law_answers_are_taken_once(
    server: IdentityServerView,
    client_allowed: bool,
    endpoint_valid: bool,
    challenge: bson::Document,
    drawn: Option<Seq<u8>>,
    again_allowed: bool,
    again_valid: bool,
    again_challenge: bson::Document,
    again_drawn: Option<Seq<u8>>,
)
    ensures
        server.after_send_challenge(client_allowed, endpoint_valid, challenge, drawn) matches Ok(next)
            ==> next.after_send_challenge(again_allowed, again_valid, again_challenge, again_drawn) == Err::<
            IdentityServerView,
            Error,
        >(Error::IncorrectUsage),
        server.after_send_challenge_verification(client_allowed) matches Ok(next)
            ==> next.after_send_challenge_verification(again_allowed) == Err::<IdentityServerView, Error>(
            Error::IncorrectUsage,
        ),
{
}

/// Whether `event` is the last event of a handshake: its completion,
/// its rejection or its failure.
pub open spec fn ends_a_handshake(event: ContextEvent) -> bool {
    ||| event is IdentityClientHandshakeCompleted
    ||| event is IdentityClientHandshakeFailed
    ||| event is IdentityServerHandshakeCompleted
    ||| event is IdentityServerHandshakeRejected
    ||| event is IdentityServerHandshakeFailed
    ||| event is EndpointClientHandshakeCompleted
    ||| event is EndpointClientHandshakeFailed
    ||| event is EndpointServerHandshakeCompleted
    ||| event is EndpointServerHandshakeRejected
    ||| event is EndpointServerHandshakeFailed
}

/// Whether a tick of an inbound handshake hands back the last event of
/// the handshake.
pub open spec fn tick_ends_a_handshake(event: Option<ContextEvent>) -> bool {
    match event {
        Some(event) => ends_a_handshake(event),
        None => false,
    }
}

/// Whether a step of an outbound identity handshake hands back the last
/// event of the handshake.
pub open spec fn identity_client_step_ends(step: IdentityClientStep) -> bool {
    match step {
        IdentityClientStep::Event(event) => ends_a_handshake(event),
        _ => false,
    }
}

/// Whether a step of an outbound endpoint handshake hands back the last
/// event of the handshake.
pub open spec fn endpoint_client_step_ends(step: EndpointClientStep) -> bool {
    match step {
        EndpointClientStep::Event(event) => ends_a_handshake(event),
        _ => false,
    }
}

/// A handshake ends with exactly one event: a step of the context
/// that retires a handshake hands back its completion, its rejection or
/// its failure, and a step that hands back one of these retires the
/// handshake.
pub proof fn law_retirement_is_announced(
    before: ContextView,
    after: ContextView,
    handle: HandshakeHandle,
    identity_client_input: IdentityClientInput,
    identity_client_step: IdentityClientStep,
    endpoint_client_input: EndpointClientInput,
    endpoint_client_step: EndpointClientStep,
    drawn: Option<Seq<u8>>,
    rpc_failed: bool,
    server_event: Option<ContextEvent>,
)
    ensures
        before.identity_clients.contains_key(handle) && before.identity_client_stepped(
            handle,
            identity_client_input,
            drawn,
            after,
            identity_client_step,
        ) ==> (!after.identity_clients.contains_key(handle) <==> identity_client_step_ends(identity_client_step)),
        before.endpoint_clients.contains_key(handle) && before.endpoint_client_stepped(
            handle,
            endpoint_client_input,
            drawn,
            after,
            endpoint_client_step,
        ) ==> (!after.endpoint_clients.contains_key(handle) <==> endpoint_client_step_ends(endpoint_client_step)),
        before.identity_servers.contains_key(handle) && !(before.identity_servers[handle].state
            is HandshakeComplete) && before.identity_server_ticked(handle, rpc_failed, after, server_event) ==> (
        !after.identity_servers.contains_key(handle) <==> tick_ends_a_handshake(server_event)),
        before.endpoint_servers.contains_key(handle) && before.endpoint_server_ticked(
            handle,
            rpc_failed,
            after,
            server_event,
        ) ==> (!after.endpoint_servers.contains_key(handle) <==> tick_ends_a_handshake(server_event)),
{
}

} // verus!
