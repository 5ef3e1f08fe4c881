//! The client proof: the byte string that a connecting peer signs to show
//! that it controls the identity it claims, in this session and no other.

use vstd::prelude::*;
use vstd::string::*;
use crate::encoding::{
    ascii_bytes, hex_lower, hex_lower_encode, lemma_ascii_bytes_injective, lemma_ascii_text_bytes,
    lemma_hex_lower_injective, lemma_hex_lower_is_ascii,
};
use crate::error::Error;
use crate::service_id::{
    is_service_id_text, lemma_service_id_text_is_ascii, GoslingV3OnionServiceId,
};

verus! {

/// The number of bytes of a client cookie.
pub const CLIENT_COOKIE_SIZE: usize = 32;

/// The number of bytes of a server cookie.
pub const SERVER_COOKIE_SIZE: usize = 32;

/// The nonce that the connecting peer draws for one handshake.
pub type ClientCookie = [u8; 32];

/// The nonce that the listening peer draws for one handshake.
pub type ServerCookie = [u8; 32];

/// The byte string that the client signs.
pub type ClientProof = Vec<u8>;

/// Tells the proof of an identity handshake from that of an endpoint
/// handshake.
#[derive(Clone, Copy, Debug, PartialEq, Eq, Structural)]
pub enum DomainSeparator {
    /// A proof made for an identity handshake.
    GoslingIdentity,
    /// A proof made for an endpoint handshake.
    GoslingEndpoint,
}

impl DomainSeparator {
    /// The text that a proof of this domain begins with.
    pub open spec fn text(self) -> Seq<char> {
        match self {
            DomainSeparator::GoslingIdentity => "gosling-identity"@,
            DomainSeparator::GoslingEndpoint => "gosling-endpoint"@,
        }
    }

    /// The text that a proof of this domain begins with.
    pub fn as_str(self) -> (text: &'static str)
        ensures
            text@ == self.text(),
    {
        match self {
            DomainSeparator::GoslingIdentity => "gosling-identity",
            DomainSeparator::GoslingEndpoint => "gosling-endpoint",
        }
    }

    /// Both texts are 16 ASCII characters long, and they differ.
    pub proof fn lemma_text(self)
        ensures
            self.text().len() == 16,
            vstd::utf8::is_ascii_chars(self.text()),
            DomainSeparator::GoslingIdentity.text() != DomainSeparator::GoslingEndpoint.text(),
    {
        reveal_strlit("gosling-identity");
        reveal_strlit("gosling-endpoint");
        assert(DomainSeparator::GoslingIdentity.text()[8] == 'i');
        assert(DomainSeparator::GoslingEndpoint.text()[8] == 'e');
    }
}

/// The client proof of a handshake: the domain's text, the name that is
/// requested, the two service ids and the two cookies in lower-case
/// hexadecimal, each part parted from the next by a zero byte.
pub open spec fn client_proof(
    domain_separator: DomainSeparator,
    request: Seq<char>,
    client_service_id: Seq<char>,
    server_service_id: Seq<char>,
    client_cookie: Seq<u8>,
    server_cookie: Seq<u8>,
) -> Seq<u8> {
    ascii_bytes(domain_separator.text()) + seq![0u8] + ascii_bytes(request) + seq![0u8]
        + ascii_bytes(client_service_id) + seq![0u8] + ascii_bytes(server_service_id) + seq![0u8]
        + ascii_bytes(hex_lower(client_cookie)) + seq![0u8] + ascii_bytes(hex_lower(server_cookie))
}

/// The length of a client proof depends on the length of the request alone.
pub proof fn lemma_client_proof_len(
    domain_separator: DomainSeparator,
    request: Seq<char>,
    client_service_id: Seq<char>,
    server_service_id: Seq<char>,
    client_cookie: Seq<u8>,
    server_cookie: Seq<u8>,
)
    requires
        is_service_id_text(client_service_id),
        is_service_id_text(server_service_id),
        client_cookie.len() == CLIENT_COOKIE_SIZE,
        server_cookie.len() == SERVER_COOKIE_SIZE,
    ensures
        client_proof(
            domain_separator,
            request,
            client_service_id,
            server_service_id,
            client_cookie,
            server_cookie,
        ).len() == request.len() + 261,
{
    domain_separator.lemma_text();
}

proof fn lemma_split_by_suffix(a: Seq<u8>, b: Seq<u8>, c: Seq<u8>, d: Seq<u8>)
    requires
        b.len() == d.len(),
        a + b == c + d,
    ensures
        a == c,
        b == d,
{
    assert((a + b).len() == (c + d).len());
    assert(a =~= (a + b).subrange(0, a.len() as int));
    assert(c =~= (c + d).subrange(0, c.len() as int));
    assert(b =~= (a + b).subrange(a.len() as int, (a + b).len() as int));
    assert(d =~= (c + d).subrange(c.len() as int, (c + d).len() as int));
}

/// Two client proofs are the same only if they were made of the same
/// parts: a change to the domain, to the request, to either service id or to
/// either cookie gives another proof.
pub proof fn lemma_client_proof_injective(
    domain_separator_1: DomainSeparator,
    request_1: Seq<char>,
    client_service_id_1: Seq<char>,
    server_service_id_1: Seq<char>,
    client_cookie_1: Seq<u8>,
    server_cookie_1: Seq<u8>,
    domain_separator_2: DomainSeparator,
    request_2: Seq<char>,
    client_service_id_2: Seq<char>,
    server_service_id_2: Seq<char>,
    client_cookie_2: Seq<u8>,
    server_cookie_2: Seq<u8>,
)
    requires
        vstd::utf8::is_ascii_chars(request_1),
        vstd::utf8::is_ascii_chars(request_2),
        is_service_id_text(client_service_id_1),
        is_service_id_text(client_service_id_2),
        is_service_id_text(server_service_id_1),
        is_service_id_text(server_service_id_2),
        client_cookie_1.len() == CLIENT_COOKIE_SIZE,
        client_cookie_2.len() == CLIENT_COOKIE_SIZE,
        server_cookie_1.len() == SERVER_COOKIE_SIZE,
        server_cookie_2.len() == SERVER_COOKIE_SIZE,
        client_proof(
            domain_separator_1,
            request_1,
            client_service_id_1,
            server_service_id_1,
            client_cookie_1,
            server_cookie_1,
        ) == client_proof(
            domain_separator_2,
            request_2,
            client_service_id_2,
            server_service_id_2,
            client_cookie_2,
            server_cookie_2,
        ),
    ensures
        domain_separator_1 == domain_separator_2,
        request_1 == request_2,
        client_service_id_1 == client_service_id_2,
        server_service_id_1 == server_service_id_2,
        client_cookie_1 == client_cookie_2,
        server_cookie_1 == server_cookie_2,
{
    let zero = seq![0u8];
    let d1 = ascii_bytes(domain_separator_1.text());
    let d2 = ascii_bytes(domain_separator_2.text());
    let r1 = ascii_bytes(request_1);
    let r2 = ascii_bytes(request_2);
    let c1 = ascii_bytes(client_service_id_1);
    let c2 = ascii_bytes(client_service_id_2);
    let s1 = ascii_bytes(server_service_id_1);
    let s2 = ascii_bytes(server_service_id_2);
    let x1 = ascii_bytes(hex_lower(client_cookie_1));
    let x2 = ascii_bytes(hex_lower(client_cookie_2));
    let y1 = ascii_bytes(hex_lower(server_cookie_1));
    let y2 = ascii_bytes(hex_lower(server_cookie_2));
    domain_separator_1.lemma_text();
    domain_separator_2.lemma_text();
    lemma_hex_lower_is_ascii(client_cookie_1);
    lemma_hex_lower_is_ascii(client_cookie_2);
    lemma_hex_lower_is_ascii(server_cookie_1);
    lemma_hex_lower_is_ascii(server_cookie_2);
    lemma_service_id_text_is_ascii(client_service_id_1);
    lemma_service_id_text_is_ascii(client_service_id_2);
    lemma_service_id_text_is_ascii(server_service_id_1);
    lemma_service_id_text_is_ascii(server_service_id_2);

    lemma_split_by_suffix(
        d1 + zero + r1 + zero + c1 + zero + s1 + zero + x1 + zero,
        y1,
        d2 + zero + r2 + zero + c2 + zero + s2 + zero + x2 + zero,
        y2,
    );
    lemma_split_by_suffix(
        d1 + zero + r1 + zero + c1 + zero + s1 + zero + x1,
        zero,
        d2 + zero + r2 + zero + c2 + zero + s2 + zero + x2,
        zero,
    );
    lemma_split_by_suffix(
        d1 + zero + r1 + zero + c1 + zero + s1 + zero,
        x1,
        d2 + zero + r2 + zero + c2 + zero + s2 + zero,
        x2,
    );
    lemma_split_by_suffix(
        d1 + zero + r1 + zero + c1 + zero + s1,
        zero,
        d2 + zero + r2 + zero + c2 + zero + s2,
        zero,
    );
    lemma_split_by_suffix(
        d1 + zero + r1 + zero + c1 + zero,
        s1,
        d2 + zero + r2 + zero + c2 + zero,
        s2,
    );
    lemma_split_by_suffix(d1 + zero + r1 + zero + c1, zero, d2 + zero + r2 + zero + c2, zero);
    lemma_split_by_suffix(d1 + zero + r1 + zero, c1, d2 + zero + r2 + zero, c2);
    lemma_split_by_suffix(d1 + zero + r1, zero, d2 + zero + r2, zero);
    assert(r1.len() == r2.len()) by {
        assert((d1 + zero + r1).len() == 17 + r1.len());
        assert((d2 + zero + r2).len() == 17 + r2.len());
    }
    lemma_split_by_suffix(d1 + zero, r1, d2 + zero, r2);
    lemma_split_by_suffix(d1, zero, d2, zero);

    lemma_ascii_bytes_injective(domain_separator_1.text(), domain_separator_2.text());
    lemma_ascii_bytes_injective(request_1, request_2);
    lemma_ascii_bytes_injective(client_service_id_1, client_service_id_2);
    lemma_ascii_bytes_injective(server_service_id_1, server_service_id_2);
    lemma_ascii_bytes_injective(hex_lower(client_cookie_1), hex_lower(client_cookie_2));
    lemma_ascii_bytes_injective(hex_lower(server_cookie_1), hex_lower(server_cookie_2));
    lemma_hex_lower_injective(client_cookie_1, client_cookie_2);
    lemma_hex_lower_injective(server_cookie_1, server_cookie_2);
}

fn append_text(buffer: &mut Vec<u8>, text: &str)
    requires
        vstd::utf8::is_ascii_chars(text@),
    ensures
        final(buffer)@ == old(buffer)@ + ascii_bytes(text@),
{
    proof {
        lemma_ascii_text_bytes(text);
    }
    let bytes = text.as_bytes();
    let ghost before = buffer@;
    buffer.extend_from_slice(bytes);
    assert(buffer@ =~= before + ascii_bytes(text@));
}

/// Builds the client proof of a handshake. Fails with `BadArgument` when
/// `request` holds a character that is not ASCII; otherwise the result is
/// exactly `client_proof` of the arguments.
pub fn build_client_proof(
    domain_separator: DomainSeparator,
    request: &str,
    client_service_id: &GoslingV3OnionServiceId,
    server_service_id: &GoslingV3OnionServiceId,
    client_cookie: &ClientCookie,
    server_cookie: &ServerCookie,
) -> (result: Result<ClientProof, Error>)
    ensures
        result is Ok <==> vstd::utf8::is_ascii_chars(request@),
        result matches Ok(bytes) ==> bytes@ == client_proof(
            domain_separator,
            request@,
            client_service_id@,
            server_service_id@,
            client_cookie@,
            server_cookie@,
        ),
        result matches Err(e) ==> e == Error::BadArgument,
{
    if !request.is_ascii() {
        return Err(Error::BadArgument);
    }
    proof {
        use_type_invariant(client_service_id);
        use_type_invariant(server_service_id);
        lemma_service_id_text_is_ascii(client_service_id@);
        lemma_service_id_text_is_ascii(server_service_id@);
        domain_separator.lemma_text();
        lemma_hex_lower_is_ascii(client_cookie@);
        lemma_hex_lower_is_ascii(server_cookie@);
    }
    let client_cookie_hex = hex_lower_encode(client_cookie.as_slice());
    let server_cookie_hex = hex_lower_encode(server_cookie.as_slice());

    let mut bytes: ClientProof = Vec::new();
    append_text(&mut bytes, domain_separator.as_str());
    bytes.push(0u8);
    append_text(&mut bytes, request);
    bytes.push(0u8);
    append_text(&mut bytes, client_service_id.as_str());
    bytes.push(0u8);
    append_text(&mut bytes, server_service_id.as_str());
    bytes.push(0u8);
    append_text(&mut bytes, client_cookie_hex.as_str());
    bytes.push(0u8);
    append_text(&mut bytes, server_cookie_hex.as_str());
    assert(bytes@ =~= client_proof(
        domain_separator,
        request@,
        client_service_id@,
        server_service_id@,
        client_cookie@,
        server_cookie@,
    ));
    Ok(bytes)
}

} // verus!
