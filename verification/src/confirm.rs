//! Delivery confirmations: a receiver's signed statement that a message
//! arrived, and its effect on the sender's copy of the message.

use vstd::prelude::*;
use vstd::utf8::encode_utf8;

use crate::clock::now_rfc3339;
use crate::contacts::{get_public_key, stored_view};
use crate::encoding::{
    base64_url, bytes_result, decode_url, decoded_text, encodable, text_result, url_encode_checked,
    url_encoding,
};
use crate::error::{Refusal, SkyError};
use crate::identity::{
    check_sender_signature, sender_check, sign_with_private_key, signature_text,
    signing_keys_consistent, Account, SignedRecord,
};
use crate::json::{byte_field, push_byte_field, push_text_field, text_field};
use crate::chats::Chat;
use crate::cover::CoverMessage;
use crate::messages::{incoming_message, outgoing_message, Message};

verus! {

/// The statement that a message reached its receiver.
#[derive(Debug, Clone, PartialEq, Eq)]
pub struct DeliveryConfirm {
    pub version: u8,
    pub message_id: String,
    pub sender_account_id: String,
    pub receiver_account_id: String,
    pub delivered_date: String,
}

/// An encoded confirmation with the signature of its encoding.
#[derive(Debug, Clone, PartialEq, Eq)]
pub struct SignedDeliveryConfirm {
    pub delivery: String,
    pub sign: String,
}

/// The JSON text of a confirmation.
pub open spec fn delivery_json(d: DeliveryConfirm) -> Seq<char> {
    byte_field("{\"version\":"@, d.version) + text_field(",\"message_id\":"@, d.message_id@)
        + text_field(",\"sender_account_id\":"@, d.sender_account_id@) + text_field(
        ",\"receiver_account_id\":"@,
        d.receiver_account_id@,
    ) + text_field(",\"delivered_date\":"@, d.delivered_date@) + "}"@
}

/// The UTF-8 bytes of the JSON text of a confirmation.
pub open spec fn delivery_bytes(d: DeliveryConfirm) -> Seq<u8> {
    encode_utf8(delivery_json(d))
}

/// The encoding of a confirmation: its JSON bytes in URL-safe base64 without padding.
pub open spec fn delivery_text(d: DeliveryConfirm) -> Seq<char> {
    base64_url(delivery_bytes(d))
}

/// The JSON text of a signed confirmation.
pub open spec fn signed_delivery_json(s: SignedDeliveryConfirm) -> Seq<char> {
    text_field("{\"delivery\":"@, s.delivery@) + text_field(",\"sign\":"@, s.sign@) + "}"@
}

/// The UTF-8 bytes of the JSON text of a signed confirmation.
pub open spec fn signed_delivery_bytes(s: SignedDeliveryConfirm) -> Seq<u8> {
    encode_utf8(signed_delivery_json(s))
}

/// The JSON text of a confirmation.
pub fn delivery_to_json(delivery: &DeliveryConfirm) -> (json: String)
    ensures
        json@ == delivery_json(*delivery),
{
    let mut json = String::new();
    push_byte_field(&mut json, "{\"version\":", delivery.version);
    push_text_field(&mut json, ",\"message_id\":", delivery.message_id.as_str());
    push_text_field(&mut json, ",\"sender_account_id\":", delivery.sender_account_id.as_str());
    push_text_field(&mut json, ",\"receiver_account_id\":", delivery.receiver_account_id.as_str());
    push_text_field(&mut json, ",\"delivered_date\":", delivery.delivered_date.as_str());
    json.append("}");
    assert(json@ =~= delivery_json(*delivery));
    json
}

/// The JSON text of a signed confirmation.
pub fn signed_delivery_to_json(signed_delivery: &SignedDeliveryConfirm) -> (json: String)
    ensures
        json@ == signed_delivery_json(*signed_delivery),
{
    let mut json = String::new();
    push_text_field(&mut json, "{\"delivery\":", signed_delivery.delivery.as_str());
    push_text_field(&mut json, ",\"sign\":", signed_delivery.sign.as_str());
    json.append("}");
    assert(json@ =~= signed_delivery_json(*signed_delivery));
    json
}

/// Encodes a confirmation for the wire; decoding the result gives back the confirmation's JSON bytes.
pub fn encode_delivery_confirm(delivery: &DeliveryConfirm) -> (encoded: Result<String, SkyError>)
    ensures
        text_result(encoded) == url_encoding(delivery_bytes(*delivery)),
        encoded is Ok ==> decoded_text(encoded.unwrap()@) == Ok::<Seq<u8>, Refusal>(
            delivery_bytes(*delivery),
        ),
{
    let json = delivery_to_json(delivery);
    url_encode_checked(json.as_str().as_bytes())
}

/// Decodes an encoded confirmation to its JSON bytes.
pub fn decode_delivery_confirm(encoded: &str) -> (bytes: Result<Vec<u8>, SkyError>)
    ensures
        bytes_result(bytes) == decoded_text(encoded@),
{
    decode_url(encoded)
}

/// Encodes a signed confirmation for the wire; decoding the result gives
/// back its JSON bytes.
pub fn encode_signed_delivery_confirm(signed_delivery: &SignedDeliveryConfirm) -> (encoded: Result<String, SkyError>)
    ensures
        text_result(encoded) == url_encoding(signed_delivery_bytes(*signed_delivery)),
        encoded is Ok ==> decoded_text(encoded.unwrap()@) == Ok::<Seq<u8>, Refusal>(
            signed_delivery_bytes(*signed_delivery),
        ),
{
    let json = signed_delivery_to_json(signed_delivery);
    url_encode_checked(json.as_str().as_bytes())
}

/// Decodes an encoded signed confirmation to its JSON bytes.
pub fn decode_signed_delivery_confirm(encoded: &str) -> (bytes: Result<Vec<u8>, SkyError>)
    ensures
        bytes_result(bytes) == decoded_text(encoded@),
{
    decode_url(encoded)
}

/// What checking a signed confirmation gives at the account with id
/// `receiver_id`: the decoded confirmation must be addressed to it, the
/// sender's public key must be stored, and the signature of the encoded
/// confirmation must be the sender's.
pub open spec fn delivery_check(signed: SignedDeliveryConfirm, receiver_id: Seq<char>, decoded: DeliveryConfirm, saved_public_key: Option<Seq<char>>) -> Result<(), Refusal> {
    if decoded.receiver_account_id@ != receiver_id {
        Err(Refusal::ConfirmAddressedToAnotherAccount)
    } else {
        match saved_public_key {
            None => Err(Refusal::PublicKeyNotFound(decoded.sender_account_id@)),
            Some(k) => sender_check(
                SignedRecord::Confirmation,
                k,
                decoded.sender_account_id@,
                encode_utf8(signed.delivery@),
                signed.sign@,
            ),
        }
    }
}

/// Signs a confirmation with the account's private key. A confirmation
/// signed with consistent keys, whose sender is the signing account, passes
/// `delivery_check` at its receiver with the signer's public key.
pub fn sign_delivery_confirm(deliver: &DeliveryConfirm, account: &Account) -> (signed: Result<SignedDeliveryConfirm, SkyError>)
    ensures
        match signed {
            Ok(s) => encodable(delivery_bytes(*deliver)) && s.delivery@ == delivery_text(*deliver) && signature_text(
                account.private_key@,
                encode_utf8(delivery_text(*deliver)),
            ) == Ok::<Seq<char>, Refusal>(s.sign@),
            Err(e) => if encodable(delivery_bytes(*deliver)) {
                signature_text(account.private_key@, encode_utf8(delivery_text(*deliver)))
                    == Err::<Seq<char>, Refusal>(e@)
            } else {
                e == SkyError::TooLong
            },
        },
        signing_keys_consistent(*account) && deliver.sender_account_id@ == account.account_id@
            && encodable(delivery_bytes(*deliver)) ==> signed is Ok && delivery_check(
            signed.unwrap(),
            deliver.receiver_account_id@,
            *deliver,
            Some(account.public_key@),
        ) == Ok::<(), Refusal>(()),
{
    let encoded = encode_delivery_confirm(deliver)?;
    let sign = sign_with_private_key(account, encoded.as_str().as_bytes())?;
    Ok(SignedDeliveryConfirm { delivery: encoded, sign })
}

/// Checks a signed confirmation that reached `account`. `decoded` is the
/// confirmation read from the JSON bytes of `signed_delivery.delivery`;
/// `saved_public_key` is the sender's public key as stored among the
/// contacts, if any. The confirmation comes back where the check passes.
pub fn verify_signed_delivery_confirm(
    signed_delivery: &SignedDeliveryConfirm,
    account: &Account,
    decoded: DeliveryConfirm,
    saved_public_key: Option<String>,
) -> (verified: Result<DeliveryConfirm, SkyError>)
    ensures
        match verified {
            Ok(d) => d == decoded && delivery_check(
                *signed_delivery,
                account.account_id@,
                decoded,
                stored_view(saved_public_key),
            ) == Ok::<(), Refusal>(()),
            Err(e) => delivery_check(
                *signed_delivery,
                account.account_id@,
                decoded,
                stored_view(saved_public_key),
            ) == Err::<(), Refusal>(e@),
        },
{
    if !(decoded.receiver_account_id == account.account_id) {
        return Err(SkyError::ConfirmAddressedToAnotherAccount);
    }
    let saved = get_public_key(saved_public_key, decoded.sender_account_id.as_str())?;
    check_sender_signature(
        SignedRecord::Confirmation,
        saved.as_str(),
        &decoded.sender_account_id,
        signed_delivery.delivery.as_str().as_bytes(),
        signed_delivery.sign.as_str(),
    )?;
    Ok(decoded)
}

/// The confirmation that `account` sends for a message it received, dated
/// `delivered_date`: version 1, from the account back to the message's peer.
pub fn deliver_confirm_at(message: &Message, account: &Account, delivered_date: String) -> (confirm: DeliveryConfirm)
    ensures
        confirm.version == 1,
        confirm.message_id == message.message_id,
        confirm.sender_account_id == account.account_id,
        confirm.receiver_account_id == message.peer_account_id,
        confirm.delivered_date == delivered_date,
{
    DeliveryConfirm {
        version: 1,
        message_id: message.message_id.clone(),
        sender_account_id: account.account_id.clone(),
        receiver_account_id: message.peer_account_id.clone(),
        delivered_date,
    }
}

/// The confirmation that `account` sends for a message it received, dated now.
pub fn get_deliver_confirm(message: &Message, account: &Account) -> (confirm: DeliveryConfirm)
    ensures
        confirm.version == 1,
        confirm.message_id == message.message_id,
        confirm.sender_account_id == account.account_id,
        confirm.receiver_account_id == message.peer_account_id,
        confirm.delivered_date@.len() <= 64,
{
    deliver_confirm_at(message, account, now_rfc3339())
}

/// The message as the confirmation leaves it: delivered.
pub open spec fn delivered(m: Message, after: Message) -> bool {
    &&& after.message_id == m.message_id
    &&& after.chat_id == m.chat_id
    &&& after.account_id == m.account_id
    &&& after.peer_account_id == m.peer_account_id
    &&& after.direction == m.direction
    &&& after.body == m.body
    &&& after.created_date == m.created_date
    &&& after.delivery_state@ == "delivered"@
}

/// What applying a verified confirmation gives at `account`, given the
/// stored message it names (if any): the confirmation must be addressed to
/// the account, the message must be stored, outgoing, and sent to the
/// confirmation's sender.
pub open spec fn confirm_outcome(account: Account, delivery: DeliveryConfirm, stored: Option<Message>) -> Result<(), Refusal> {
    if account.account_id@ != delivery.receiver_account_id@ {
        Err(Refusal::ConfirmAddressedToAnotherAccount)
    } else {
        match named_message(stored, account, delivery) {
            None => Err(Refusal::MessageNotFound),
            Some(m) => if m.direction@ != "outgoing"@ {
                Err(Refusal::NotOutgoing)
            } else if m.peer_account_id@ != delivery.sender_account_id@ {
                Err(Refusal::ConfirmPeerMismatch)
            } else {
                Ok(())
            },
        }
    }
}

/// The stored message, if it is the account's message that the confirmation names.
pub open spec fn named_message(stored: Option<Message>, account: Account, delivery: DeliveryConfirm) -> Option<Message> {
    match stored {
        Some(m) => if m.account_id@ == account.account_id@ && m.message_id@ == delivery.message_id@ {
            Some(m)
        } else {
            None
        },
        None => None,
    }
}

/// Applies a confirmation to the stored message it names (`stored`, found by
/// the account and the confirmation's message id; another message counts as
/// none). Where it is accepted the result is the message in the delivered
/// state, as it must be stored.
pub fn apply_delivery_confirm(account: &Account, delivery: &DeliveryConfirm, stored: Option<Message>) -> (updated: Result<Message, SkyError>)
    ensures
        match updated {
            Ok(after) => confirm_outcome(*account, *delivery, stored) == Ok::<(), Refusal>(())
                && delivered(stored.unwrap(), after),
            Err(e) => confirm_outcome(*account, *delivery, stored) == Err::<(), Refusal>(e@),
        },
        updated matches Ok(after) ==> {
            &&& stored matches Some(before)
            &&& after.message_id == before.message_id
            &&& after.chat_id == before.chat_id
            &&& after.account_id == before.account_id
            &&& after.peer_account_id == before.peer_account_id
            &&& after.direction == before.direction
            &&& after.body == before.body
            &&& after.created_date == before.created_date
            &&& after.direction@ == "outgoing"@
            &&& after.delivery_state@ == "delivered"@
        },
{
    if !(account.account_id == delivery.receiver_account_id) {
        return Err(SkyError::ConfirmAddressedToAnotherAccount);
    }
    let message = match stored {
        Some(m) => if m.account_id == account.account_id && m.message_id == delivery.message_id {
            m
        } else {
            return Err(SkyError::MessageNotFound);
        },
        None => return Err(SkyError::MessageNotFound),
    };
    let outgoing = String::from_str("outgoing");
    if !(message.direction == outgoing) {
        return Err(SkyError::NotOutgoing);
    }
    if !(message.peer_account_id == delivery.sender_account_id) {
        return Err(SkyError::ConfirmPeerMismatch);
    }
    Ok(Message {
        message_id: message.message_id,
        chat_id: message.chat_id,
        account_id: message.account_id,
        peer_account_id: message.peer_account_id,
        direction: message.direction,
        body: message.body,
        delivery_state: String::from_str("delivered"),
        created_date: message.created_date,
    })
}

/// The delivery update must change exactly one stored message.
pub fn check_rows_affected(rows_affected: u64) -> (res: Result<(), SkyError>)
    ensures
        rows_affected == 1 <==> res is Ok,
        res is Err ==> res == Err::<(), SkyError>(SkyError::MessageNotUpdated),
{
    if rows_affected != 1 {
        Err(SkyError::MessageNotUpdated)
    } else {
        Ok(())
    }
}

/// The message read back after the update must be delivered.
pub fn check_delivered(message: Message) -> (res: Result<Message, SkyError>)
    ensures
        message.delivery_state@ == "delivered"@ ==> res == Ok::<Message, SkyError>(message),
        message.delivery_state@ != "delivered"@ ==> res == Err::<Message, SkyError>(SkyError::NotDelivered),
{
    let delivered_state = String::from_str("delivered");
    if message.delivery_state == delivered_state {
        Ok(message)
    } else {
        Err(SkyError::NotDelivered)
    }
}

/// A confirmation passes `delivery_check` at an account only if it is
/// addressed to that account and the sender's stored key accepts the
/// signature of the encoded confirmation.
pub proof fn law_checked_confirm_is_addressed_and_signed(signed: SignedDeliveryConfirm, receiver_id: Seq<char>, decoded: DeliveryConfirm, saved_public_key: Option<Seq<char>>)
    requires
        delivery_check(signed, receiver_id, decoded, saved_public_key) == Ok::<(), Refusal>(()),
    ensures
        decoded.receiver_account_id@ == receiver_id,
        saved_public_key is Some,
        sender_check(
            SignedRecord::Confirmation,
            saved_public_key.unwrap(),
            decoded.sender_account_id@,
            encode_utf8(signed.delivery@),
            signed.sign@,
        ) == Ok::<(), Refusal>(()),
{
}

/// A confirmation addressed to the account, from the peer of a message the
/// account wrote, is accepted for that message.
pub proof fn law_confirm_accepts_own_outgoing(
    account: Account,
    chat: Chat,
    body: Seq<char>,
    message_id: String,
    created_date: String,
    message: Message,
    delivery: DeliveryConfirm,
)
    requires
        outgoing_message(message, account, chat, body, message_id, created_date),
        delivery.receiver_account_id@ == account.account_id@,
        delivery.message_id@ == message_id@,
        delivery.sender_account_id@ == chat.peer_account_id@,
    ensures
        confirm_outcome(account, delivery, Some(message)) == Ok::<(), Refusal>(()),
{
}

/// A confirmation is never accepted for a message the account received.
pub proof fn law_confirm_refuses_incoming(
    account: Account,
    cover_message: CoverMessage,
    chat: Chat,
    message: Message,
    delivery: DeliveryConfirm,
)
    requires
        incoming_message(message, account, cover_message, chat),
        delivery.receiver_account_id@ == account.account_id@,
        delivery.message_id@ == cover_message.message_id@,
    ensures
        confirm_outcome(account, delivery, Some(message)) == Err::<(), Refusal>(Refusal::NotOutgoing),
{
    reveal_strlit("incoming");
    reveal_strlit("outgoing");
    assert("incoming"@[0] != "outgoing"@[0]);
}

/// Applying an accepted confirmation marks the message delivered and keeps
/// everything else: it stays the same outgoing message, in the same chat, to
/// the same peer (the confirmation's sender), with the same text and date.
pub proof fn law_confirmation_changes_only_the_state(
    account: Account,
    delivery: DeliveryConfirm,
    stored: Message,
    after: Message,
)
    requires
        confirm_outcome(account, delivery, Some(stored)) is Ok,
        delivered(stored, after),
    ensures
        after.message_id == stored.message_id,
        after.chat_id == stored.chat_id,
        after.account_id == stored.account_id,
        after.peer_account_id == stored.peer_account_id,
        after.direction == stored.direction,
        after.body == stored.body,
        after.created_date == stored.created_date,
        after.direction@ == "outgoing"@,
        after.delivery_state@ == "delivered"@,
        after.peer_account_id@ == delivery.sender_account_id@,
        after.message_id@ == delivery.message_id@,
{
}

/// A confirmation applied twice: the message it left is accepted again, and
/// the second application changes nothing.
pub proof fn law_confirmation_is_idempotent(
    account: Account,
    delivery: DeliveryConfirm,
    stored: Message,
    after: Message,
    again: Message,
)
    requires
        confirm_outcome(account, delivery, Some(stored)) is Ok,
        delivered(stored, after),
        delivered(after, again),
    ensures
        confirm_outcome(account, delivery, Some(after)) is Ok,
        again.message_id == after.message_id,
        again.chat_id == after.chat_id,
        again.account_id == after.account_id,
        again.peer_account_id == after.peer_account_id,
        again.direction == after.direction,
        again.body == after.body,
        again.created_date == after.created_date,
        again.delivery_state@ == after.delivery_state@,
{
}

} // verus!
