//! Invite tokens: an account's signed introduction, handed to a peer who
//! adds it as a contact.

use vstd::prelude::*;
use vstd::utf8::encode_utf8;

use crate::clock::now_rfc3339;
use crate::crypto::{
    ed25519_key_check, ed25519_public, ed25519_public_key, ed25519_sign, ed25519_signature,
    ed25519_verification, ed25519_verify, peer_key,
};
use crate::encoding::{
    array32, array64, base64_standard, base64_standard_decoded, base64_url, bytes_result,
    decode_standard, decode_url, decoded_text, encodable, standard_encode, text_result,
    url_encode_checked,
};
use crate::error::{Refusal, SkyError};
use crate::identity::{account_id_of, get_account_id, signing_keys_consistent, Account};
use crate::json::{byte_field, push_byte_field, push_text_field, text_field};

verus! {

/// What an invite introduces: the inviting account, its signing key and the
/// date; an invite may also carry the account's encryption public key.
#[derive(Debug, Clone, PartialEq, Eq)]
pub struct Payload {
    pub version: u8,
    pub account_id: String,
    pub public_key: String,
    pub created_date: String,
    pub token_type: String,
    pub encryption_public_key: Option<String>,
}

/// An encoded payload with the inviter's signature of its JSON bytes.
#[derive(Debug, Clone, PartialEq, Eq)]
pub struct InviteToken {
    pub payload: String,
    pub sign: String,
}

/// The JSON text of a payload with these fields; the encryption public key
/// is written only where there is one.
pub open spec fn payload_fields_json(
    version: u8,
    account_id: Seq<char>,
    public_key: Seq<char>,
    created_date: Seq<char>,
    token_type: Seq<char>,
    encryption_public_key: Option<Seq<char>>,
) -> Seq<char> {
    byte_field("{\"version\":"@, version) + text_field(",\"account_id\":"@, account_id)
        + text_field(",\"public_key\":"@, public_key) + text_field(
        ",\"created_date\":"@,
        created_date,
    ) + text_field(",\"token_type\":"@, token_type) + match encryption_public_key {
        Some(k) => text_field(",\"encryption_public_key\":"@, k),
        None => Seq::<char>::empty(),
    } + "}"@
}

/// The JSON text of a payload.
pub open spec fn payload_json(p: Payload) -> Seq<char> {
    payload_fields_json(
        p.version,
        p.account_id@,
        p.public_key@,
        p.created_date@,
        p.token_type@,
        crate::contacts::stored_view(p.encryption_public_key),
    )
}

/// The JSON text of an invite token with these fields.
pub open spec fn invite_fields_json(payload: Seq<char>, sign: Seq<char>) -> Seq<char> {
    text_field("{\"payload\":"@, payload) + text_field(",\"sign\":"@, sign) + "}"@
}

/// The JSON text of an invite token.
pub open spec fn invite_json(t: InviteToken) -> Seq<char> {
    invite_fields_json(t.payload@, t.sign@)
}

/// The JSON text of a payload.
pub fn payload_to_json(payload: &Payload) -> (json: String)
    ensures
        json@ == payload_json(*payload),
{
    let mut json = String::new();
    push_byte_field(&mut json, "{\"version\":", payload.version);
    push_text_field(&mut json, ",\"account_id\":", payload.account_id.as_str());
    push_text_field(&mut json, ",\"public_key\":", payload.public_key.as_str());
    push_text_field(&mut json, ",\"created_date\":", payload.created_date.as_str());
    push_text_field(&mut json, ",\"token_type\":", payload.token_type.as_str());
    match &payload.encryption_public_key {
        Some(k) => push_text_field(&mut json, ",\"encryption_public_key\":", k.as_str()),
        None => {},
    }
    json.append("}");
    assert(json@ =~= payload_json(*payload));
    json
}

/// The JSON text of an invite token.
pub fn invite_to_json(token: &InviteToken) -> (json: String)
    ensures
        json@ == invite_json(*token),
{
    let mut json = String::new();
    push_text_field(&mut json, "{\"payload\":", token.payload.as_str());
    push_text_field(&mut json, ",\"sign\":", token.sign.as_str());
    json.append("}");
    assert(json@ =~= invite_json(*token));
    json
}

/// The secret behind an account's private key text.
pub open spec fn signing_secret(account: Account) -> Seq<u8> {
    base64_standard_decoded(account.private_key@)->Ok_0
}

/// The JSON bytes of the payload that `account` issues at `date`: version,
/// account id, public key, date and type, without an encryption key.
pub open spec fn issued_payload_bytes(account: Account, date: Seq<char>) -> Seq<u8> {
    encode_utf8(
        payload_fields_json(1, account.account_id@, account.public_key@, date, "multi_use"@, None),
    )
}

/// The signature text of the payload that `account` issues at `date`.
pub open spec fn issued_sign(account: Account, date: Seq<char>) -> Seq<char> {
    base64_standard(ed25519_signature(signing_secret(account), issued_payload_bytes(account, date)))
}

/// The JSON bytes of the invite token that `account` issues at `date`.
pub open spec fn issued_token_bytes(account: Account, date: Seq<char>) -> Seq<u8> {
    encode_utf8(
        invite_fields_json(base64_url(issued_payload_bytes(account, date)), issued_sign(account, date)),
    )
}

/// What generating an invite token for `account` at `date` gives: the
/// private key must decode to 32 bytes whose public key is the account's;
/// the token is the signed payload, encoded.
pub open spec fn token_outcome(account: Account, date: Seq<char>) -> Result<Seq<char>, Refusal> {
    match base64_standard_decoded(account.private_key@) {
        Err(m) => Err(Refusal::InvalidBase64(m)),
        Ok(secret) => if secret.len() != 32 {
            Err(Refusal::PrivateKeyLength)
        } else if base64_standard(ed25519_public(secret)) != account.public_key@ {
            Err(Refusal::KeyPairMismatch)
        } else if !encodable(issued_payload_bytes(account, date)) || !encodable(
            issued_token_bytes(account, date),
        ) {
            Err(Refusal::TooLong)
        } else {
            Ok(base64_url(issued_token_bytes(account, date)))
        },
    }
}

/// `payload` is the one `account` issues at `date`.
pub open spec fn issued_payload(payload: Payload, account: Account, date: Seq<char>) -> bool {
    &&& payload.version == 1
    &&& payload.account_id@ == account.account_id@
    &&& payload.public_key@ == account.public_key@
    &&& payload.created_date@ == date
    &&& payload.token_type@ == "multi_use"@
    &&& payload.encryption_public_key is None
}

/// What checking an invite gives: `payload` is what the JSON bytes
/// `payload_bytes` of `invite.payload` hold. The payload must be of version 1
/// and type `multi_use`; its public key must decode to a valid 32-byte key;
/// the invite's signature must decode to 64 bytes and be accepted for the
/// payload bytes; the payload's account id must be that key's id.
pub open spec fn invite_check(invite: InviteToken, payload_bytes: Seq<u8>, payload: Payload) -> Result<(), Refusal> {
    if payload.version != 1 {
        Err(Refusal::UnsupportedVersion)
    } else if payload.token_type@ != "multi_use"@ {
        Err(Refusal::UnsupportedTokenType)
    } else {
        match base64_standard_decoded(payload.public_key@) {
            Err(m) => Err(Refusal::InvalidBase64(m)),
            Ok(public) => if public.len() != 32 {
                Err(Refusal::PublicKeyLength)
            } else {
                match ed25519_key_check(public) {
                    Err(m) => Err(Refusal::InvalidPublicKey(m)),
                    Ok(()) => match base64_standard_decoded(invite.sign@) {
                        Err(m) => Err(Refusal::InvalidBase64(m)),
                        Ok(signature) => if signature.len() != 64 {
                            Err(Refusal::InviteSignatureLength)
                        } else {
                            match ed25519_verification(public, payload_bytes, signature) {
                                Err(m) => Err(Refusal::InviteSignatureRejected(m)),
                                Ok(()) => if payload.account_id@ != account_id_of(public) {
                                    Err(Refusal::AccountIdMismatch)
                                } else {
                                    Ok(())
                                },
                            }
                        },
                    },
                }
            },
        }
    }
}

/// Decodes an invite token to the JSON bytes of the invite.
pub fn decode_invite_token(token: &str) -> (bytes: Result<Vec<u8>, SkyError>)
    ensures
        bytes_result(bytes) == decoded_text(token@),
{
    decode_url(token)
}

/// Decodes the payload of an invite to its JSON bytes.
pub fn decode_invite_payload(invite_token: &InviteToken) -> (bytes: Result<Vec<u8>, SkyError>)
    ensures
        bytes_result(bytes) == decoded_text(invite_token.payload@),
{
    decode_url(invite_token.payload.as_str())
}

/// Checks an invite. `payload_bytes` are the JSON bytes of
/// `invite_token.payload` and `payload` the payload they hold. The payload
/// comes back where the check passes.
pub fn verify_invite_token(invite_token: &InviteToken, payload_bytes: &[u8], payload: Payload) -> (verified: Result<Payload, SkyError>)
    ensures
        match verified {
            Ok(p) => p == payload && invite_check(*invite_token, payload_bytes@, payload) == Ok::<(), Refusal>(()),
            Err(e) => invite_check(*invite_token, payload_bytes@, payload) == Err::<(), Refusal>(e@),
        },
{
    if payload.version != 1 {
        return Err(SkyError::UnsupportedVersion);
    }
    let multi_use = String::from_str("multi_use");
    if !(payload.token_type == multi_use) {
        return Err(SkyError::UnsupportedTokenType);
    }
    let public_key_bytes = decode_standard(payload.public_key.as_str())?;
    if public_key_bytes.len() != 32 {
        return Err(SkyError::PublicKeyLength);
    }
    let pub_key_arr = array32(&public_key_bytes);
    let public_key = match peer_key(&pub_key_arr) {
        Ok(k) => k,
        Err(m) => return Err(SkyError::InvalidPublicKey(m)),
    };
    let sign_bytes = decode_standard(invite_token.sign.as_str())?;
    if sign_bytes.len() != 64 {
        return Err(SkyError::InviteSignatureLength);
    }
    let sign_arr = array64(&sign_bytes);
    match ed25519_verify(&public_key, payload_bytes, &sign_arr) {
        Ok(()) => {},
        Err(m) => return Err(SkyError::InviteSignatureRejected(m)),
    }
    let expected_id = get_account_id(public_key_bytes.as_slice());
    if !(payload.account_id == expected_id) {
        return Err(SkyError::AccountIdMismatch);
    }
    Ok(payload)
}

/// Generates the invite token of `account` dated `created_date`.
///
/// A token generated for an account with consistent signing keys decodes to
/// an invite whose payload decodes to the issued payload's bytes, and every
/// invite and payload with the issued fields pass `invite_check`.
pub fn token_generator_at(account: &Account, created_date: String) -> (token: Result<String, SkyError>)
    ensures
        text_result(token) == token_outcome(*account, created_date@),
        signing_keys_consistent(*account) && encodable(
            issued_payload_bytes(*account, created_date@),
        ) && encodable(issued_token_bytes(*account, created_date@)) ==> {
            &&& token is Ok
            &&& decoded_text(token.unwrap()@) == Ok::<Seq<u8>, Refusal>(
                issued_token_bytes(*account, created_date@),
            )
            &&& decoded_text(base64_url(issued_payload_bytes(*account, created_date@))) == Ok::<
                Seq<u8>,
                Refusal,
            >(issued_payload_bytes(*account, created_date@))
            &&& forall|invite: InviteToken, payload: Payload|
                invite.sign@ == issued_sign(*account, created_date@) && #[trigger] issued_payload(
                    payload,
                    *account,
                    created_date@,
                ) ==> #[trigger] invite_check(
                    invite,
                    issued_payload_bytes(*account, created_date@),
                    payload,
                ) == Ok::<(), Refusal>(())
        },
{
    let private_key_bytes = decode_standard(account.private_key.as_str())?;
    if private_key_bytes.len() != 32 {
        return Err(SkyError::PrivateKeyLength);
    }
    let private_key_arr = array32(&private_key_bytes);
    let derived_public_key = ed25519_public_key(&private_key_arr);
    let derived_public_key_enc = standard_encode(derived_public_key.as_slice());
    if !(derived_public_key_enc == account.public_key) {
        return Err(SkyError::KeyPairMismatch);
    }
    let payload = Payload {
        version: 1,
        account_id: account.account_id.clone(),
        public_key: account.public_key.clone(),
        created_date,
        token_type: String::from_str("multi_use"),
        encryption_public_key: None,
    };
    let payload_to_json = payload_to_json(&payload);
    let payload_bytes = payload_to_json.as_str().as_bytes();
    assert(payload_bytes@ == issued_payload_bytes(*account, payload.created_date@));
    let signature = ed25519_sign(&private_key_arr, payload_bytes);
    let encoded_payload = url_encode_checked(payload_bytes)?;
    let token = InviteToken {
        payload: encoded_payload,
        sign: standard_encode(signature.as_slice()),
    };
    let token_to_json = invite_to_json(&token);
    let token_bytes = token_to_json.as_str().as_bytes();
    assert(token_bytes@ == issued_token_bytes(*account, payload.created_date@));
    let result = url_encode_checked(token_bytes);
    proof {
        if signing_keys_consistent(*account) {
            let secret = signing_secret(*account);
            assert(secret == private_key_bytes@);
            assert forall|invite: InviteToken, p: Payload|
                invite.sign@ == issued_sign(*account, payload.created_date@) && #[trigger] issued_payload(
                    p,
                    *account,
                    payload.created_date@,
                ) implies #[trigger] invite_check(
                invite,
                issued_payload_bytes(*account, payload.created_date@),
                p,
            ) == Ok::<(), Refusal>(()) by {
                assert(base64_standard_decoded(p.public_key@) == Ok::<Seq<u8>, Seq<char>>(
                    ed25519_public(secret),
                ));
                assert(base64_standard_decoded(invite.sign@) == Ok::<Seq<u8>, Seq<char>>(signature@));
            }
        }
    }
    result
}

/// Generates the invite token of `account`, dated now. An account with
/// consistent signing keys gets a token wherever the records fit the
/// encoder's length limit.
pub fn token_generator(account: &Account) -> (token: Result<String, SkyError>)
    ensures
        exists|date: Seq<char>|
            {
                &&& date.len() <= 64
                &&& text_result(token) == #[trigger] token_outcome(*account, date)
                &&& signing_keys_consistent(*account) && encodable(issued_payload_bytes(*account, date))
                    && encodable(issued_token_bytes(*account, date)) ==> token is Ok
            },
{
    let created_date = now_rfc3339();
    let ghost date = created_date@;
    let token = token_generator_at(account, created_date);
    assert(text_result(token) == token_outcome(*account, date));
    token
}

/// An invite passes `invite_check` only if its payload is of version 1 and
/// type `multi_use`, names the account of its own public key, and its
/// signature is accepted for the payload bytes by that key.
pub proof fn law_checked_invite_is_authentic(invite: InviteToken, payload_bytes: Seq<u8>, payload: Payload)
    requires
        invite_check(invite, payload_bytes, payload) == Ok::<(), Refusal>(()),
    ensures
        payload.version == 1,
        payload.token_type@ == "multi_use"@,
        exists|public: Seq<u8>, signature: Seq<u8>|
            {
                &&& base64_standard_decoded(payload.public_key@) == Ok::<Seq<u8>, Seq<char>>(public)
                &&& account_id_of(public) == payload.account_id@
                &&& base64_standard_decoded(invite.sign@) == Ok::<Seq<u8>, Seq<char>>(signature)
                &&& #[trigger] ed25519_verification(public, payload_bytes, signature) is Ok
            },
{
    let public = base64_standard_decoded(payload.public_key@)->Ok_0;
    let signature = base64_standard_decoded(invite.sign@)->Ok_0;
    assert(ed25519_verification(public, payload_bytes, signature) is Ok);
}

} // verus!
