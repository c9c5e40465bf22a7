//! The cryptographic primitives the messenger relies on: SHA-256, Ed25519
//! signatures, X25519 key agreement, HKDF and key generation.

use ed25519_dalek::{Signature, Signer, SigningKey, Verifier, VerifyingKey};
use sha2::Digest;
use vstd::prelude::*;

verus! {

/// The SHA-256 digest of `data`.
pub uninterp spec fn sha256_digest(data: Seq<u8>) -> Seq<u8>;

/// The Ed25519 public key of the 32-byte secret `secret`, compressed.
pub uninterp spec fn ed25519_public(secret: Seq<u8>) -> Seq<u8>;

/// The Ed25519 signature of `message` under the secret `secret`.
pub uninterp spec fn ed25519_signature(secret: Seq<u8>, message: Seq<u8>) -> Seq<u8>;

/// Whether `public` decompresses to a point of the curve, so that it can be
/// used as a verifying key; else the text of the parser's error.
pub uninterp spec fn ed25519_key_check(public: Seq<u8>) -> Result<(), Seq<char>>;

/// Whether `signature` is accepted for `message` by the verifying key
/// `public`; else the text of the verifier's error.
pub uninterp spec fn ed25519_verification(public: Seq<u8>, message: Seq<u8>, signature: Seq<u8>) -> Result<(), Seq<char>>;

/// The X25519 public key of the 32-byte secret `secret`.
pub uninterp spec fn x25519_public(secret: Seq<u8>) -> Seq<u8>;

/// The X25519 shared secret of `secret` with the peer key `public`.
pub uninterp spec fn x25519_shared(secret: Seq<u8>, public: Seq<u8>) -> Seq<u8>;

/// The 32 bytes that HKDF-SHA256 without salt expands `key_material` to under `info`.
pub uninterp spec fn hkdf_sha256(key_material: Seq<u8>, info: Seq<u8>) -> Seq<u8>;

/// `sha2::Sha256::digest`, its 32-byte output copied into an array.
/// Claimed: the digest is a function of the data alone.
#[verifier::external_body]
pub(crate) fn sha256(data: &[u8]) -> (digest: [u8; 32])
    ensures
        digest@ == sha256_digest(data@),
{
    sha2::Sha256::digest(data).into()
}

/// `ed25519_dalek::SigningKey::verifying_key` of the key made from `secret`, as bytes.
/// Claimed: the public key is a function of the secret, and it is a valid
/// point (the crate derives it by multiplying the base point).
#[verifier::external_body]
pub(crate) fn ed25519_public_key(secret: &[u8; 32]) -> (public: [u8; 32])
    ensures
        public@ == ed25519_public(secret@),
        ed25519_key_check(public@) is Ok,
{
    SigningKey::from_bytes(secret).verifying_key().to_bytes()
}

/// `ed25519_dalek::SigningKey::sign` with the key made from `secret`, as bytes.
/// Claimed: Ed25519 signing is deterministic, and the signature verifies under
/// the public key of the same secret (the crate's documented round trip).
#[verifier::external_body]
pub(crate) fn ed25519_sign(secret: &[u8; 32], message: &[u8]) -> (signature: [u8; 64])
    ensures
        signature@ == ed25519_signature(secret@, message@),
        ed25519_verification(ed25519_public(secret@), message@, signature@) is Ok,
{
    SigningKey::from_bytes(secret).sign(message).to_bytes()
}

#[verifier::external_type_specification]
#[verifier::external_body]
pub struct ExVerifyingKey(VerifyingKey);

/// A verifying key together with the 32 bytes it was made from.
pub struct PeerKey {
    bytes: [u8; 32],
    key: VerifyingKey,
}

impl PeerKey {
    /// The bytes the key was made from.
    pub closed spec fn key_bytes(&self) -> Seq<u8> {
        self.bytes@
    }
}

/// `ed25519_dalek::VerifyingKey::from_bytes`, with its error turned into
/// the error's text.
/// Claimed: the outcome, error text included, is a function of the bytes,
/// and the key keeps its bytes.
#[verifier::external_body]
pub(crate) fn peer_key(bytes: &[u8; 32]) -> (key: Result<PeerKey, String>)
    ensures
        match key {
            Ok(k) => ed25519_key_check(bytes@) is Ok && k.key_bytes() == bytes@,
            Err(m) => ed25519_key_check(bytes@) == Err::<(), Seq<char>>(m@),
        },
{
    match VerifyingKey::from_bytes(bytes) {
        Ok(key) => Ok(PeerKey { bytes: *bytes, key }),
        Err(e) => Err(e.to_string()),
    }
}

/// `ed25519_dalek::VerifyingKey::verify` (the `Verifier` trait), on the
/// signature made from `signature`, with its error turned into the error's text.
/// Claimed: the outcome, error text included, is a function of the key's
/// bytes, the message and the signature.
#[verifier::external_body]
pub(crate) fn ed25519_verify(key: &PeerKey, message: &[u8], signature: &[u8; 64]) -> (accepted: Result<(), String>)
    ensures
        match accepted {
            Ok(()) => ed25519_verification(key.key_bytes(), message@, signature@) is Ok,
            Err(m) => ed25519_verification(key.key_bytes(), message@, signature@) == Err::<(), Seq<char>>(m@),
        },
{
    match key.key.verify(message, &Signature::from_bytes(signature)) {
        Ok(()) => Ok(()),
        Err(e) => Err(e.to_string()),
    }
}

/// `x25519_dalek::PublicKey::from` the `StaticSecret` made from `secret`, as bytes.
/// Claimed: the public key is a function of the secret.
#[verifier::external_body]
pub(crate) fn x25519_public_key(secret: &[u8; 32]) -> (public: [u8; 32])
    ensures
        public@ == x25519_public(secret@),
{
    x25519_dalek::PublicKey::from(&x25519_dalek::StaticSecret::from(*secret)).to_bytes()
}

/// `x25519_dalek::StaticSecret::diffie_hellman` of `secret` with the key `public`, as bytes.
/// Claimed: the shared secret is a function of both inputs, and two parties
/// agree on it: with the peer key of another secret, each side obtains what
/// the other obtains with this side's public key (the crate's documented example).
#[verifier::external_body]
pub(crate) fn x25519_diffie_hellman(secret: &[u8; 32], public: &[u8; 32]) -> (shared: [u8; 32])
    ensures
        shared@ == x25519_shared(secret@, public@),
        forall|other: Seq<u8>|
            other.len() == 32 && public@ == #[trigger] x25519_public(other) ==> shared@
                == x25519_shared(other, x25519_public(secret@)),
{
    x25519_dalek::StaticSecret::from(*secret).diffie_hellman(&x25519_dalek::PublicKey::from(*public)).to_bytes()
}

/// `hkdf::Hkdf::<Sha256>::expand` of the extractor made without salt from
/// `key_material`, into 32 bytes; `None` where it returns an error.
/// Claimed: the output is a function of the inputs, and the expansion
/// succeeds, as the crate fails only for outputs longer than 255 hashes.
#[verifier::external_body]
pub(crate) fn hkdf_sha256_expand(key_material: &[u8], info: &[u8]) -> (okm: Option<[u8; 32]>)
    ensures
        okm is Some,
        okm.unwrap()@ == hkdf_sha256(key_material@, info@),
{
    let mut okm = [0u8; 32];
    match hkdf::Hkdf::<sha2::Sha256>::new(None, key_material).expand(info, &mut okm) {
        Ok(()) => Some(okm),
        Err(_) => None,
    }
}

/// `ed25519_dalek::SigningKey::generate` from the thread's random generator, as bytes.
/// Nothing is claimed of the secret: it is random.
#[verifier::external_body]
pub(crate) fn random_signing_secret() -> (secret: [u8; 32]) {
    SigningKey::generate(&mut rand::thread_rng()).to_bytes()
}

/// `x25519_dalek::StaticSecret::random_from_rng` with the operating system's generator, as bytes.
/// Nothing is claimed of the secret: it is random.
#[verifier::external_body]
pub(crate) fn random_encryption_secret() -> (secret: [u8; 32]) {
    x25519_dalek::StaticSecret::random_from_rng(rand::rngs::OsRng).to_bytes()
}

} // verus!
