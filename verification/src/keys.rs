//! Key material and nonces, held as the bytes they are made of. The
//! library carries keys and compares their bytes; it never computes with
//! them.

use vstd::prelude::*;
use vstd::slice::slice_to_vec;

verus! {

/// The number of bytes of an ed25519 signature.
pub const ED25519_SIGNATURE_SIZE: usize = 64;

/// The number of bytes of an ed25519 private key in its expanded form.
pub const ED25519_PRIVATE_KEY_SIZE: usize = 64;

/// The number of bytes of an x25519 private key.
pub const X25519_PRIVATE_KEY_SIZE: usize = 32;

/// The number of bytes of an x25519 public key.
pub const X25519_PUBLIC_KEY_SIZE: usize = 32;

/// An ed25519 signature, as the 64 bytes that go over the wire.
pub type Ed25519Signature = [u8; 64];

/// The private half of an ed25519 key pair: the key behind a service id.
#[derive(Clone, Copy, Debug)]
pub struct GoslingEd25519PrivateKey {
    bytes: [u8; 64],
}

impl View for GoslingEd25519PrivateKey {
    type V = Seq<u8>;

    closed spec fn view(&self) -> Seq<u8> {
        self.bytes@
    }
}

impl GoslingEd25519PrivateKey {
    /// The key that is made of `bytes`.
    pub fn from_raw(bytes: &[u8; 64]) -> (key: GoslingEd25519PrivateKey)
        ensures
            key@ == bytes@,
    {
        GoslingEd25519PrivateKey { bytes: *bytes }
    }

    /// The bytes that the key is made of.
    pub fn to_bytes(&self) -> (bytes: [u8; 64])
        ensures
            bytes@ == self@,
    {
        self.bytes
    }
}

/// The private half of an x25519 key pair: what lets a client read the
/// descriptor of an onion service that asks for client authorization.
#[derive(Clone, Copy, Debug)]
pub struct GoslingX25519PrivateKey {
    bytes: [u8; 32],
}

impl View for GoslingX25519PrivateKey {
    type V = Seq<u8>;

    closed spec fn view(&self) -> Seq<u8> {
        self.bytes@
    }
}

impl GoslingX25519PrivateKey {
    /// The key that is made of `bytes`.
    pub fn from_raw(bytes: &[u8; 32]) -> (key: GoslingX25519PrivateKey)
        ensures
            key@ == bytes@,
    {
        GoslingX25519PrivateKey { bytes: *bytes }
    }

    /// The bytes that the key is made of.
    pub fn to_bytes(&self) -> (bytes: [u8; 32])
        ensures
            bytes@ == self@,
    {
        self.bytes
    }
}

/// The public half of an x25519 key pair: what an onion service publishes
/// for the one client that may read its descriptor.
#[derive(Clone, Copy, Debug)]
pub struct GoslingX25519PublicKey {
    bytes: [u8; 32],
}

impl View for GoslingX25519PublicKey {
    type V = Seq<u8>;

    closed spec fn view(&self) -> Seq<u8> {
        self.bytes@
    }
}

impl GoslingX25519PublicKey {
    /// The key that is made of `bytes`.
    pub fn from_raw(bytes: &[u8; 32]) -> (key: GoslingX25519PublicKey)
        ensures
            key@ == bytes@,
    {
        GoslingX25519PublicKey { bytes: *bytes }
    }

    /// The bytes that the key is made of.
    pub fn as_bytes(&self) -> (bytes: &[u8; 32])
        ensures
            bytes@ == self@,
    {
        &self.bytes
    }
}

/// The 32 bytes of `bytes` as an array, if there are exactly 32.
pub fn array_of_32(bytes: &Vec<u8>) -> (array: Option<[u8; 32]>)
    ensures
        array is Some <==> bytes@.len() == 32,
        array matches Some(a) ==> a@ == bytes@,
{
    if bytes.len() != 32 {
        return None;
    }
    let mut array = [0u8; 32];
    let mut i: usize = 0;
    while i < 32
        invariant
            i <= 32,
            bytes@.len() == 32,
            forall|j: int| 0 <= j < i ==> array@[j] == bytes@[j],
        decreases 32 - i,
    {
        array[i] = bytes[i];
        i += 1;
    }
    assert(array@ =~= bytes@);
    Some(array)
}

/// The 64 bytes of `bytes` as an array, if there are exactly 64.
pub fn array_of_64(bytes: &Vec<u8>) -> (array: Option<[u8; 64]>)
    ensures
        array is Some <==> bytes@.len() == 64,
        array matches Some(a) ==> a@ == bytes@,
{
    if bytes.len() != 64 {
        return None;
    }
    let mut array = [0u8; 64];
    let mut i: usize = 0;
    while i < 64
        invariant
            i <= 64,
            bytes@.len() == 64,
            forall|j: int| 0 <= j < i ==> array@[j] == bytes@[j],
        decreases 64 - i,
    {
        array[i] = bytes[i];
        i += 1;
    }
    assert(array@ =~= bytes@);
    Some(array)
}

/// The bytes of a 32-byte array as a vector.
pub fn vec_of_32(array: &[u8; 32]) -> (bytes: Vec<u8>)
    ensures
        bytes@ == array@,
{
    slice_to_vec(array.as_slice())
}

/// The bytes of a 64-byte array as a vector.
pub fn vec_of_64(array: &[u8; 64]) -> (bytes: Vec<u8>)
    ensures
        bytes@ == array@,
{
    slice_to_vec(array.as_slice())
}

/// `rand::rngs::OsRng::try_fill_bytes` on 32 bytes: a nonce drawn from the
/// operating system's random number generator, or `None` where the
/// operating system could not give one. Nothing is known of the bytes.
#[verifier::external_body]
pub(crate) fn draw_cookie() -> (cookie: Option<[u8; 32]>)
{
    let mut bytes = [0u8; 32];
    match rand::RngCore::try_fill_bytes(&mut rand::rngs::OsRng, &mut bytes) {
        Ok(()) => Some(bytes),
        Err(_) => None,
    }
}

} // verus!
