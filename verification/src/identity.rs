//! Accounts: their keys, their ids, and the secrets two accounts share.

use vstd::prelude::*;
use vstd::utf8::encode_utf8;

use crate::contacts::{get_peer_encryption_public_key, stored_view};
use crate::crypto::{
    ed25519_key_check, ed25519_public, ed25519_public_key, ed25519_sign, ed25519_signature,
    ed25519_verification, ed25519_verify, hkdf_sha256, hkdf_sha256_expand, peer_key,
    random_encryption_secret, random_signing_secret, sha256, sha256_digest, x25519_diffie_hellman,
    x25519_public, x25519_public_key, x25519_shared,
};
use crate::encoding::{
    array32, array64, base64_standard, base64_standard_decoded, decode_standard, prefix,
    standard_encode, text_result, unit_result,
};
use crate::error::{Refusal, SkyError};

verus! {

/// The local account: its signing key pair and its encryption key pair,
/// each key in standard base64.
#[derive(Debug, Clone, PartialEq, Eq)]
pub struct Account {
    pub account_id: String,
    pub public_key: String,
    pub private_key: String,
    pub encryption_public_key: String,
    pub encryption_private_key: String,
}

/// The id of the account with the public key `public_key`: the first 16
/// bytes of its SHA-256 digest, in standard base64.
pub open spec fn account_id_of(public_key: Seq<u8>) -> Seq<char> {
    base64_standard(sha256_digest(public_key).take(16))
}

/// The signing keys of `account` belong together: its private key decodes to
/// a 32-byte secret, its public key is that secret's public key (a valid
/// point of 32 bytes) and decodes back to it, and its id is that key's id.
pub open spec fn signing_keys_consistent(account: Account) -> bool {
    match base64_standard_decoded(account.private_key@) {
        Ok(secret) => {
            &&& secret.len() == 32
            &&& account.public_key@ == base64_standard(ed25519_public(secret))
            &&& base64_standard_decoded(account.public_key@) == Ok::<Seq<u8>, Seq<char>>(
                ed25519_public(secret),
            )
            &&& ed25519_key_check(ed25519_public(secret)) is Ok
            &&& ed25519_public(secret).len() == 32
            &&& account.account_id@ == account_id_of(ed25519_public(secret))
        },
        Err(_) => false,
    }
}

/// The encryption keys of `account` belong together: its encryption private
/// key decodes to a 32-byte secret whose X25519 public key is its encryption
/// public key, which decodes back to it.
pub open spec fn encryption_keys_consistent(account: Account) -> bool {
    match base64_standard_decoded(account.encryption_private_key@) {
        Ok(secret) => {
            &&& secret.len() == 32
            &&& account.encryption_public_key@ == base64_standard(x25519_public(secret))
            &&& base64_standard_decoded(account.encryption_public_key@) == Ok::<Seq<u8>, Seq<char>>(
                x25519_public(secret),
            )
            &&& x25519_public(secret).len() == 32
        },
        Err(_) => false,
    }
}

/// Both key pairs of `account` belong together.
pub open spec fn account_well_formed(account: Account) -> bool {
    signing_keys_consistent(account) && encryption_keys_consistent(account)
}

/// The account made from a signing secret and an encryption secret.
pub open spec fn account_of_secrets(account: Account, signing: Seq<u8>, encryption: Seq<u8>) -> bool {
    &&& account.account_id@ == account_id_of(ed25519_public(signing))
    &&& account.public_key@ == base64_standard(ed25519_public(signing))
    &&& account.private_key@ == base64_standard(signing)
    &&& account.encryption_public_key@ == base64_standard(x25519_public(encryption))
    &&& account.encryption_private_key@ == base64_standard(encryption)
}

/// The bytes of an outcome that carries 32 bytes.
pub open spec fn key_result(r: Result<[u8; 32], SkyError>) -> Result<Seq<u8>, Refusal> {
    match r {
        Ok(k) => Ok(k@),
        Err(e) => Err(e@),
    }
}

/// The account id for a public key.
pub fn get_account_id(public_key: &[u8]) -> (id: String)
    ensures
        id@ == account_id_of(public_key@),
{
    let hash = sha256(public_key);
    let head = prefix(hash.as_slice(), 16);
    standard_encode(head.as_slice())
}

/// The label under which message keys are expanded.
pub open spec fn message_key_info() -> Seq<u8> {
    encode_utf8("sky-message-key-v1"@)
}

/// The message key derived from a shared secret: HKDF-SHA256 without salt,
/// expanded under `sky-message-key-v1` to 32 bytes. It never fails.
pub fn get_message_key(general_secret: &[u8; 32]) -> (key: Result<[u8; 32], SkyError>)
    ensures
        key_result(key) == Ok::<Seq<u8>, Refusal>(hkdf_sha256(general_secret@, message_key_info())),
{
    let info = "sky-message-key-v1";
    match hkdf_sha256_expand(general_secret.as_slice(), info.as_bytes()) {
        Some(key) => Ok(key),
        None => Err(SkyError::KeyExpansion),
    }
}

/// What `get_secret` gives for an encryption private key and the stored
/// encryption public key of the peer `peer_id`, if any.
pub open spec fn shared_secret(private_key: Seq<char>, peer_id: Seq<char>, peer_key: Option<Seq<char>>) -> Result<Seq<u8>, Refusal> {
    match base64_standard_decoded(private_key) {
        Err(m) => Err(Refusal::InvalidBase64(m)),
        Ok(secret) => if secret.len() != 32 {
            Err(Refusal::EncryptionKeyLength)
        } else {
            match peer_key {
                None => Err(Refusal::EncryptionKeyNotFound(peer_id)),
                Some(text) => match base64_standard_decoded(text) {
                    Err(m) => Err(Refusal::InvalidBase64(m)),
                    Ok(public) => if public.len() != 32 {
                        Err(Refusal::PeerEncryptionKeyLength)
                    } else {
                        Ok(x25519_shared(secret, public))
                    },
                },
            }
        },
    }
}

/// The secret that `my_account` shares with the peer `peer_account_id`,
/// given the peer's encryption public key as stored among the contacts
/// (`None` where no contact holds one). Two accounts with consistent
/// encryption keys obtain the same secret from each other's public keys.
pub fn get_secret(my_account: &Account, peer_account_id: &str, peer_encryption_public_key: Option<String>) -> (secret: Result<[u8; 32], SkyError>)
    ensures
        key_result(secret) == shared_secret(
            my_account.encryption_private_key@,
            peer_account_id@,
            stored_view(peer_encryption_public_key),
        ),
        forall|peer: Account, peer_id: Seq<char>|
            encryption_keys_consistent(*my_account) && #[trigger] encryption_keys_consistent(peer)
                && peer_encryption_public_key is Some
                && peer_encryption_public_key.unwrap()@ == peer.encryption_public_key@
                ==> key_result(secret) == #[trigger] shared_secret(
                peer.encryption_private_key@,
                peer_id,
                Some(my_account.encryption_public_key@),
            ),
{
    let private_key_bytes = decode_standard(my_account.encryption_private_key.as_str())?;
    if private_key_bytes.len() != 32 {
        return Err(SkyError::EncryptionKeyLength);
    }
    let private_key_arr = array32(&private_key_bytes);
    let peer_public_key = get_peer_encryption_public_key(peer_encryption_public_key, peer_account_id)?;
    let peer_public_key_bytes = decode_standard(peer_public_key.as_str())?;
    if peer_public_key_bytes.len() != 32 {
        return Err(SkyError::PeerEncryptionKeyLength);
    }
    let peer_public_key_arr = array32(&peer_public_key_bytes);
    let shared = x25519_diffie_hellman(&private_key_arr, &peer_public_key_arr);
    proof {
        assert forall|peer: Account, peer_id: Seq<char>|
            encryption_keys_consistent(*my_account) && #[trigger] encryption_keys_consistent(peer)
                && peer_encryption_public_key is Some
                && peer_encryption_public_key.unwrap()@ == peer.encryption_public_key@
            implies Ok::<Seq<u8>, Refusal>(shared@) == #[trigger] shared_secret(
                peer.encryption_private_key@,
                peer_id,
                Some(my_account.encryption_public_key@),
            ) by {
            let other = base64_standard_decoded(peer.encryption_private_key@)->Ok_0;
            assert(peer_public_key_arr@ == x25519_public(other));
        }
    }
    Ok(shared)
}

/// The account made from the given signing and encryption secrets.
pub fn account_from_secrets(signing_secret: [u8; 32], encryption_secret: [u8; 32]) -> (account: Account)
    ensures
        account_of_secrets(account, signing_secret@, encryption_secret@),
        account_well_formed(account),
{
    let public_key_bytes = ed25519_public_key(&signing_secret);
    let encryption_public_key_bytes = x25519_public_key(&encryption_secret);
    let account_id = get_account_id(public_key_bytes.as_slice());
    let public_key = standard_encode(public_key_bytes.as_slice());
    let private_key = standard_encode(signing_secret.as_slice());
    let encryption_public_key = standard_encode(encryption_public_key_bytes.as_slice());
    let encryption_private_key = standard_encode(encryption_secret.as_slice());
    Account { account_id, public_key, private_key, encryption_public_key, encryption_private_key }
}

/// A new account with fresh random keys.
pub fn create_account() -> (account: Account)
    ensures
        account_well_formed(account),
{
    let signing_secret = random_signing_secret();
    let encryption_secret = random_encryption_secret();
    account_from_secrets(signing_secret, encryption_secret)
}

/// The stored account where there is one, else a new one; the flag tells
/// whether the account is new and still has to be stored.
pub fn load_or_create(stored: Option<Account>) -> (result: (Account, bool))
    ensures
        stored is Some ==> result.0 == stored.unwrap() && !result.1,
        stored is None ==> account_well_formed(result.0) && result.1,
{
    match stored {
        Some(account) => (account, false),
        None => (create_account(), true),
    }
}

/// What signing `message` with the private key text gives: the signature
/// in standard base64.
pub open spec fn signature_text(private_key: Seq<char>, message: Seq<u8>) -> Result<Seq<char>, Refusal> {
    match base64_standard_decoded(private_key) {
        Err(m) => Err(Refusal::InvalidBase64(m)),
        Ok(secret) => if secret.len() != 32 {
            Err(Refusal::SigningKeyLength)
        } else {
            Ok(base64_standard(ed25519_signature(secret, message)))
        },
    }
}

/// The kind of record whose signature is checked: it decides the text of a
/// sender mismatch.
#[derive(Debug, Clone, Copy, PartialEq, Eq, Structural)]
pub enum SignedRecord {
    Cover,
    Confirmation,
}

/// The refusal of a sender that does not match the stored key.
pub open spec fn sender_mismatch(kind: SignedRecord) -> Refusal {
    match kind {
        SignedRecord::Cover => Refusal::CoverSenderMismatch,
        SignedRecord::Confirmation => Refusal::ConfirmSenderMismatch,
    }
}

/// The signature of `message` under the account's private key, in standard
/// base64. Under consistent signing keys the signature passes `sender_check`
/// for the account's public key and id.
pub fn sign_with_private_key(account: &Account, message: &[u8]) -> (signature: Result<String, SkyError>)
    ensures
        text_result(signature) == signature_text(account.private_key@, message@),
        signing_keys_consistent(*account) ==> signature is Ok && forall|kind: SignedRecord|
            #[trigger] sender_check(
                kind,
                account.public_key@,
                account.account_id@,
                message@,
                signature.unwrap()@,
            ) == Ok::<(), Refusal>(()),
{
    let private_key_bytes = decode_standard(account.private_key.as_str())?;
    if private_key_bytes.len() != 32 {
        return Err(SkyError::SigningKeyLength);
    }
    let private_key_arr = array32(&private_key_bytes);
    let signature = ed25519_sign(&private_key_arr, message);
    Ok(standard_encode(signature.as_slice()))
}

/// What checking a signature against a stored public key gives: the key must
/// decode, match the sender's id, have 32 bytes and be a valid point; the
/// signature must decode to 64 bytes and be accepted for the message.
pub open spec fn sender_check(kind: SignedRecord, saved_public_key: Seq<char>, sender_id: Seq<char>, message: Seq<u8>, sign: Seq<char>) -> Result<(), Refusal> {
    match base64_standard_decoded(saved_public_key) {
        Err(m) => Err(Refusal::InvalidBase64(m)),
        Ok(public) => if account_id_of(public) != sender_id {
            Err(sender_mismatch(kind))
        } else if public.len() != 32 {
            Err(Refusal::PublicKeyLength)
        } else {
            match ed25519_key_check(public) {
                Err(m) => Err(Refusal::InvalidPublicKey(m)),
                Ok(()) => match base64_standard_decoded(sign) {
                    Err(m) => Err(Refusal::InvalidBase64(m)),
                    Ok(signature) => if signature.len() != 64 {
                        Err(Refusal::SignatureLength)
                    } else {
                        match ed25519_verification(public, message, signature) {
                            Err(m) => Err(Refusal::SignatureRejected(m)),
                            Ok(()) => Ok(()),
                        }
                    },
                },
            }
        },
    }
}

/// Checks that `sign` is the sender's signature of `message`, the sender
/// being known by its id and its stored public key.
pub fn check_sender_signature(kind: SignedRecord, saved_public_key: &str, sender_id: &String, message: &[u8], sign: &str) -> (res: Result<(), SkyError>)
    ensures
        unit_result(res) == sender_check(kind, saved_public_key@, sender_id@, message@, sign@),
{
    let public_key_bytes = decode_standard(saved_public_key)?;
    let expected_id = get_account_id(public_key_bytes.as_slice());
    if !(expected_id == *sender_id) {
        return match kind {
            SignedRecord::Cover => Err(SkyError::CoverSenderMismatch),
            SignedRecord::Confirmation => Err(SkyError::ConfirmSenderMismatch),
        };
    }
    if public_key_bytes.len() != 32 {
        return Err(SkyError::PublicKeyLength);
    }
    let public_key_arr = array32(&public_key_bytes);
    let public_key = match peer_key(&public_key_arr) {
        Ok(k) => k,
        Err(m) => return Err(SkyError::InvalidPublicKey(m)),
    };
    let sign_bytes = decode_standard(sign)?;
    if sign_bytes.len() != 64 {
        return Err(SkyError::SignatureLength);
    }
    let sign_arr = array64(&sign_bytes);
    match ed25519_verify(&public_key, message, &sign_arr) {
        Ok(()) => Ok(()),
        Err(m) => Err(SkyError::SignatureRejected(m)),
    }
}

/// A signature passes `sender_check` only if the stored key decodes to a
/// public key whose account id is the claimed sender's, and the signature
/// decodes to 64 bytes that this key accepts for the message.
pub proof fn law_sender_check_is_authentic(kind: SignedRecord, saved_public_key: Seq<char>, sender_id: Seq<char>, message: Seq<u8>, sign: Seq<char>)
    requires
        sender_check(kind, saved_public_key, sender_id, message, sign) == Ok::<(), Refusal>(()),
    ensures
        exists|public: Seq<u8>, signature: Seq<u8>|
            {
                &&& base64_standard_decoded(saved_public_key) == Ok::<Seq<u8>, Seq<char>>(public)
                &&& account_id_of(public) == sender_id
                &&& base64_standard_decoded(sign) == Ok::<Seq<u8>, Seq<char>>(signature)
                &&& signature.len() == 64
                &&& #[trigger] ed25519_verification(public, message, signature) is Ok
            },
{
    let public = base64_standard_decoded(saved_public_key)->Ok_0;
    let signature = base64_standard_decoded(sign)->Ok_0;
    assert(ed25519_verification(public, message, signature) is Ok);
}

} // verus!
