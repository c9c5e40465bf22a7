//! Covers: the signed envelopes in which messages travel between accounts.

use vstd::prelude::*;
use vstd::utf8::encode_utf8;

use crate::contacts::{get_public_key, stored_view};
use crate::encoding::{
    base64_url, bytes_result, decode_url, decoded_text, encodable, text_result, unit_result,
    url_encode_checked, url_encoding, url_safe_char,
};
use crate::error::{Refusal, SkyError};
use crate::identity::{
    check_sender_signature, sender_check, sign_with_private_key, signature_text,
    signing_keys_consistent, Account, SignedRecord,
};
use crate::json::{byte_field, push_byte_field, push_text_field, text_field};
use crate::messages::Message;

verus! {

/// A message as it travels to its receiver.
#[derive(Debug, Clone, PartialEq, Eq)]
pub struct CoverMessage {
    pub version: u8,
    pub message_id: String,
    pub sender_account_id: String,
    pub receiver_account_id: String,
    pub chat_id: String,
    pub created_date: String,
    pub payload_type: String,
    pub body: String,
}

/// An encoded cover with the sender's signature of its encoding.
#[derive(Debug, Clone, PartialEq, Eq)]
pub struct SignedCoverMessage {
    pub cover: String,
    pub sign: String,
}

/// The JSON text of a cover.
pub open spec fn cover_json(c: CoverMessage) -> Seq<char> {
    byte_field("{\"version\":"@, c.version) + text_field(",\"message_id\":"@, c.message_id@)
        + text_field(",\"sender_account_id\":"@, c.sender_account_id@) + text_field(
        ",\"receiver_account_id\":"@,
        c.receiver_account_id@,
    ) + text_field(",\"chat_id\":"@, c.chat_id@) + text_field(
        ",\"created_date\":"@,
        c.created_date@,
    ) + text_field(",\"payload_type\":"@, c.payload_type@) + text_field(",\"body\":"@, c.body@)
        + "}"@
}

/// The UTF-8 bytes of the JSON text of a cover.
pub open spec fn cover_bytes(c: CoverMessage) -> Seq<u8> {
    encode_utf8(cover_json(c))
}

/// The encoding of a cover: its JSON bytes in URL-safe base64 without padding.
pub open spec fn cover_text(c: CoverMessage) -> Seq<char> {
    base64_url(cover_bytes(c))
}

/// The JSON text of a cover.
pub fn cover_to_json(cover_message: &CoverMessage) -> (json: String)
    ensures
        json@ == cover_json(*cover_message),
{
    let mut json = String::new();
    push_byte_field(&mut json, "{\"version\":", cover_message.version);
    push_text_field(&mut json, ",\"message_id\":", cover_message.message_id.as_str());
    push_text_field(&mut json, ",\"sender_account_id\":", cover_message.sender_account_id.as_str());
    push_text_field(&mut json, ",\"receiver_account_id\":", cover_message.receiver_account_id.as_str());
    push_text_field(&mut json, ",\"chat_id\":", cover_message.chat_id.as_str());
    push_text_field(&mut json, ",\"created_date\":", cover_message.created_date.as_str());
    push_text_field(&mut json, ",\"payload_type\":", cover_message.payload_type.as_str());
    push_text_field(&mut json, ",\"body\":", cover_message.body.as_str());
    json.append("}");
    assert(json@ =~= cover_json(*cover_message));
    json
}

/// Encodes a cover for the wire; decoding the result gives back the cover's JSON bytes.
pub fn encode_cover_message(cover_message: &CoverMessage) -> (encoded: Result<String, SkyError>)
    ensures
        text_result(encoded) == url_encoding(cover_bytes(*cover_message)),
        encoded is Ok ==> decoded_text(encoded.unwrap()@) == Ok::<Seq<u8>, Refusal>(
            cover_bytes(*cover_message),
        ),
        encoded is Ok ==> forall|i: int|
            0 <= i < encoded.unwrap()@.len() ==> url_safe_char(#[trigger] encoded.unwrap()@[i]),
{
    let json = cover_to_json(cover_message);
    url_encode_checked(json.as_str().as_bytes())
}

/// Decodes an encoded cover to its JSON bytes.
pub fn decode_cover_message(encoded: &str) -> (bytes: Result<Vec<u8>, SkyError>)
    ensures
        bytes_result(bytes) == decoded_text(encoded@),
{
    decode_url(encoded)
}

/// Decodes an encoded signed cover to its JSON bytes.
pub fn decode_signed_cover_message(encoded: &str) -> (bytes: Result<Vec<u8>, SkyError>)
    ensures
        bytes_result(bytes) == decoded_text(encoded@),
{
    decode_url(encoded)
}

/// What checking a signed cover gives at the account with id `receiver_id`:
/// the decoded cover must be addressed to it, the sender's public key must be
/// stored, and the signature of the encoded cover must be the sender's.
pub open spec fn cover_check(signed: SignedCoverMessage, receiver_id: Seq<char>, decoded: CoverMessage, saved_public_key: Option<Seq<char>>) -> Result<(), Refusal> {
    if decoded.receiver_account_id@ != receiver_id {
        Err(Refusal::AddressedToAnotherAccount)
    } else {
        match saved_public_key {
            None => Err(Refusal::PublicKeyNotFound(decoded.sender_account_id@)),
            Some(k) => sender_check(
                SignedRecord::Cover,
                k,
                decoded.sender_account_id@,
                encode_utf8(signed.cover@),
                signed.sign@,
            ),
        }
    }
}

/// Signs a cover with the account's private key. The result is the encoded
/// cover and its signature; a cover signed with consistent keys, whose sender
/// is the signing account, passes `cover_check` at its receiver with the
/// signer's public key.
pub fn sign_cover(cover_message: &CoverMessage, account: &Account) -> (signed: Result<SignedCoverMessage, SkyError>)
    ensures
        match signed {
            Ok(s) => encodable(cover_bytes(*cover_message)) && s.cover@ == cover_text(*cover_message) && signature_text(
                account.private_key@,
                encode_utf8(cover_text(*cover_message)),
            ) == Ok::<Seq<char>, Refusal>(s.sign@),
            Err(e) => if encodable(cover_bytes(*cover_message)) {
                signature_text(account.private_key@, encode_utf8(cover_text(*cover_message)))
                    == Err::<Seq<char>, Refusal>(e@)
            } else {
                e == SkyError::TooLong
            },
        },
        signing_keys_consistent(*account) && cover_message.sender_account_id@ == account.account_id@
            && encodable(cover_bytes(*cover_message)) ==> signed is Ok && cover_check(
            signed.unwrap(),
            cover_message.receiver_account_id@,
            *cover_message,
            Some(account.public_key@),
        ) == Ok::<(), Refusal>(()),
{
    let encoded = encode_cover_message(cover_message)?;
    let sign = sign_with_private_key(account, encoded.as_str().as_bytes())?;
    Ok(SignedCoverMessage { cover: encoded, sign })
}

/// Checks a signed cover that reached `my_account`. `decoded` is the cover
/// read from the JSON bytes of `signed.cover`; `saved_public_key` is the
/// sender's public key as stored among the contacts, if any. The cover comes
/// back where the check passes.
pub fn verify_signed_cover(
    signed_cover: &SignedCoverMessage,
    my_account: &Account,
    decoded: CoverMessage,
    saved_public_key: Option<String>,
) -> (verified: Result<CoverMessage, SkyError>)
    ensures
        match verified {
            Ok(c) => c == decoded && cover_check(
                *signed_cover,
                my_account.account_id@,
                decoded,
                stored_view(saved_public_key),
            ) == Ok::<(), Refusal>(()),
            Err(e) => cover_check(
                *signed_cover,
                my_account.account_id@,
                decoded,
                stored_view(saved_public_key),
            ) == Err::<(), Refusal>(e@),
        },
{
    if !(decoded.receiver_account_id == my_account.account_id) {
        return Err(SkyError::AddressedToAnotherAccount);
    }
    let saved = get_public_key(saved_public_key, decoded.sender_account_id.as_str())?;
    check_sender_signature(
        SignedRecord::Cover,
        saved.as_str(),
        &decoded.sender_account_id,
        signed_cover.cover.as_str().as_bytes(),
        signed_cover.sign.as_str(),
    )?;
    Ok(decoded)
}

/// The cover of a stored message: version 1, sent by the message's account
/// to its peer, with the text payload type.
pub fn get_cover_message(message: &Message) -> (cover_message: CoverMessage)
    ensures
        cover_message.version == 1,
        cover_message.message_id == message.message_id,
        cover_message.sender_account_id == message.account_id,
        cover_message.receiver_account_id == message.peer_account_id,
        cover_message.chat_id == message.chat_id,
        cover_message.created_date == message.created_date,
        cover_message.payload_type@ == "text"@,
        cover_message.body == message.body,
{
    CoverMessage {
        version: 1,
        message_id: message.message_id.clone(),
        sender_account_id: message.account_id.clone(),
        receiver_account_id: message.peer_account_id.clone(),
        chat_id: message.chat_id.clone(),
        created_date: message.created_date.clone(),
        payload_type: String::from_str("text"),
        body: message.body.clone(),
    }
}

/// A cover passes `cover_check` at an account only if it is addressed to
/// that account and the sender's stored key accepts the signature of the
/// encoded cover (see `law_sender_check_is_authentic`).
pub proof fn law_checked_cover_is_addressed_and_signed(signed: SignedCoverMessage, receiver_id: Seq<char>, decoded: CoverMessage, saved_public_key: Option<Seq<char>>)
    requires
        cover_check(signed, receiver_id, decoded, saved_public_key) == Ok::<(), Refusal>(()),
    ensures
        decoded.receiver_account_id@ == receiver_id,
        saved_public_key is Some,
        sender_check(
            SignedRecord::Cover,
            saved_public_key.unwrap(),
            decoded.sender_account_id@,
            encode_utf8(signed.cover@),
            signed.sign@,
        ) == Ok::<(), Refusal>(()),
{
}

} // verus!
