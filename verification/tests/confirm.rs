use base64::Engine;
use sky_core::confirm::{
    apply_delivery_confirm, check_delivered, check_rows_affected, decode_delivery_confirm,
    decode_signed_delivery_confirm, deliver_confirm_at, delivery_to_json,
    encode_delivery_confirm, encode_signed_delivery_confirm, get_deliver_confirm,
    sign_delivery_confirm, signed_delivery_to_json, verify_signed_delivery_confirm,
    DeliveryConfirm, SignedDeliveryConfirm,
};
use sky_core::error::SkyError;
use sky_core::identity::{account_from_secrets, Account};
use sky_core::messages::Message;

fn alice_in_confirm() -> Account {
    account_from_secrets([1u8; 32], [2u8; 32])
}

fn bob_in_confirm() -> Account {
    account_from_secrets([3u8; 32], [4u8; 32])
}

fn sent_by(a: &Account, b: &Account) -> Message {
    Message {
        message_id: "m-7".to_string(),
        chat_id: "chat".to_string(),
        account_id: a.account_id.clone(),
        peer_account_id: b.account_id.clone(),
        direction: "outgoing".to_string(),
        body: "hi".to_string(),
        delivery_state: "local".to_string(),
        created_date: "t0".to_string(),
    }
}

fn received_by(b: &Account, a: &Account) -> Message {
    Message {
        message_id: "m-7".to_string(),
        chat_id: "chat-b".to_string(),
        account_id: b.account_id.clone(),
        peer_account_id: a.account_id.clone(),
        direction: "incoming".to_string(),
        body: "hi".to_string(),
        delivery_state: "received".to_string(),
        created_date: "t0".to_string(),
    }
}

#[test]
fn confirm_json_and_encoding() {
    let d = DeliveryConfirm {
        version: 1,
        message_id: "m".to_string(),
        sender_account_id: "s".to_string(),
        receiver_account_id: "r".to_string(),
        delivered_date: "d".to_string(),
    };
    assert_eq!(
        delivery_to_json(&d),
        "{\"version\":1,\"message_id\":\"m\",\"sender_account_id\":\"s\",\"receiver_account_id\":\"r\",\"delivered_date\":\"d\"}"
    );
    let encoded = encode_delivery_confirm(&d).unwrap();
    assert_eq!(
        encoded,
        base64::engine::general_purpose::URL_SAFE_NO_PAD.encode(delivery_to_json(&d))
    );
    assert_eq!(decode_delivery_confirm(&encoded).unwrap(), delivery_to_json(&d).into_bytes());
    let s = SignedDeliveryConfirm { delivery: "x".to_string(), sign: "y".to_string() };
    assert_eq!(signed_delivery_to_json(&s), "{\"delivery\":\"x\",\"sign\":\"y\"}");
    let e = encode_signed_delivery_confirm(&s).unwrap();
    assert_eq!(decode_signed_delivery_confirm(&e).unwrap(), signed_delivery_to_json(&s).into_bytes());
    assert_eq!(
        decode_signed_delivery_confirm("=="),
        Err(SkyError::InvalidBase64(
            base64::engine::general_purpose::URL_SAFE_NO_PAD.decode("==").unwrap_err().to_string()
        ))
    );
}

#[test]
fn receiver_confirms_and_sender_applies() {
    let a = alice_in_confirm();
    let b = bob_in_confirm();
    let outgoing = sent_by(&a, &b);
    let incoming = received_by(&b, &a);
    let confirm = deliver_confirm_at(&incoming, &b, "t1".to_string());
    assert_eq!(confirm.sender_account_id, b.account_id);
    assert_eq!(confirm.receiver_account_id, a.account_id);
    assert_eq!(confirm.message_id, "m-7");
    assert_eq!(confirm.version, 1);
    let signed = sign_delivery_confirm(&confirm, &b).unwrap();
    let verified =
        verify_signed_delivery_confirm(&signed, &a, confirm.clone(), Some(b.public_key.clone()))
            .unwrap();
    assert_eq!(verified, confirm);
    let updated = apply_delivery_confirm(&a, &verified, Some(outgoing.clone())).unwrap();
    assert_eq!(updated.delivery_state, "delivered");
    assert_eq!(updated.message_id, outgoing.message_id);
    assert_eq!(updated.body, outgoing.body);
    assert_eq!(check_rows_affected(1), Ok(()));
    assert_eq!(check_delivered(updated.clone()), Ok(updated));
}

#[test]
fn confirm_refusals() {
    let a = alice_in_confirm();
    let b = bob_in_confirm();
    let incoming = received_by(&b, &a);
    let confirm = deliver_confirm_at(&incoming, &b, "t1".to_string());
    let signed = sign_delivery_confirm(&confirm, &b).unwrap();
    let elsewhere =
        verify_signed_delivery_confirm(&signed, &b, confirm.clone(), Some(b.public_key.clone()));
    assert_eq!(elsewhere, Err(SkyError::ConfirmAddressedToAnotherAccount));
    assert_eq!(
        elsewhere.unwrap_err().message(),
        "Confirm message is addressed to another account!"
    );
    let missing = verify_signed_delivery_confirm(&signed, &a, confirm.clone(), None);
    assert_eq!(missing, Err(SkyError::PublicKeyNotFound(b.account_id.clone())));
    assert_eq!(
        missing.unwrap_err().message(),
        format!("Contact public key not found for peer: {}", b.account_id)
    );
    let mismatch =
        verify_signed_delivery_confirm(&signed, &a, confirm.clone(), Some(a.public_key.clone()));
    assert_eq!(mismatch, Err(SkyError::ConfirmSenderMismatch));
    assert_eq!(mismatch.unwrap_err().message(), "sender id doesn't match with ");
    assert_eq!(
        apply_delivery_confirm(&b, &confirm, Some(sent_by(&a, &b))),
        Err(SkyError::ConfirmAddressedToAnotherAccount)
    );
    let none = apply_delivery_confirm(&a, &confirm, None);
    assert_eq!(none, Err(SkyError::MessageNotFound));
    assert_eq!(
        none.unwrap_err().message(),
        "no rows returned by a query that expected to return at least one row"
    );
    let incoming = apply_delivery_confirm(&a, &confirm, Some(received_by(&a, &b)));
    assert_eq!(incoming, Err(SkyError::NotOutgoing));
    assert_eq!(incoming.unwrap_err().message(), "This message is not outgoing!");
    let other = account_from_secrets([9u8; 32], [9u8; 32]);
    let wrong_peer = apply_delivery_confirm(&a, &confirm, Some(sent_by(&a, &other)));
    assert_eq!(wrong_peer, Err(SkyError::ConfirmPeerMismatch));
    assert_eq!(wrong_peer.unwrap_err().message(), "sender id is doesn't match");
    assert_eq!(check_rows_affected(0), Err(SkyError::MessageNotUpdated));
    assert_eq!(check_rows_affected(2), Err(SkyError::MessageNotUpdated));
    assert_eq!(SkyError::MessageNotUpdated.message(), "message is not updated!");
    assert_eq!(check_delivered(sent_by(&a, &b)), Err(SkyError::NotDelivered));
    assert_eq!(SkyError::NotDelivered.message(), "message is not delivered!");
}

#[test]
fn deliver_confirm_is_dated_now() {
    let a = alice_in_confirm();
    let b = bob_in_confirm();
    let confirm = get_deliver_confirm(&received_by(&b, &a), &b);
    assert!(confirm.delivered_date.starts_with("20"));
    assert_eq!(confirm.receiver_account_id, a.account_id);
}

#[test]
fn a_message_of_another_row_is_treated_as_missing() {
    let a = alice_in_confirm();
    let b = bob_in_confirm();
    let confirm = deliver_confirm_at(&received_by(&b, &a), &b, "t1".to_string());
    // another message id
    let mut other_id = sent_by(&a, &b);
    other_id.message_id = "m-8".to_string();
    assert_eq!(apply_delivery_confirm(&a, &confirm, Some(other_id)), Err(SkyError::MessageNotFound));
    // the same id, but stored for another account
    let theirs = sent_by(&b, &a);
    assert_eq!(apply_delivery_confirm(&a, &confirm, Some(theirs)), Err(SkyError::MessageNotFound));
}

#[test]
fn signing_a_confirmation_needs_a_usable_private_key() {
    let a = alice_in_confirm();
    let mut b = bob_in_confirm();
    let confirm = deliver_confirm_at(&received_by(&b, &a), &b, "t1".to_string());
    b.private_key = base64::engine::general_purpose::STANDARD.encode([7u8; 12]);
    let refused = sign_delivery_confirm(&confirm, &b);
    assert_eq!(refused, Err(SkyError::SigningKeyLength));
    assert_eq!(refused.unwrap_err().message(), "private key lenght is incorrect");
}
