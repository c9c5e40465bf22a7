use ed25519_dalek::Verifier;
use base64::Engine;
use sky_core::cover::{
    cover_to_json, decode_cover_message, decode_signed_cover_message, encode_cover_message,
    get_cover_message, sign_cover, verify_signed_cover, CoverMessage, SignedCoverMessage,
};
use sky_core::error::SkyError;
use sky_core::identity::{account_from_secrets, get_account_id, Account};
use sky_core::messages::Message;

fn url_refusal(text: &str) -> SkyError {
    SkyError::InvalidBase64(
        base64::engine::general_purpose::URL_SAFE_NO_PAD.decode(text).unwrap_err().to_string(),
    )
}

fn standard_refusal(text: &str) -> SkyError {
    SkyError::InvalidBase64(
        base64::engine::general_purpose::STANDARD.decode(text).unwrap_err().to_string(),
    )
}

fn alice_in_cover() -> Account {
    account_from_secrets([1u8; 32], [2u8; 32])
}

fn bob_in_cover() -> Account {
    account_from_secrets([3u8; 32], [4u8; 32])
}

fn cover_from(a: &Account, b: &Account, body: &str) -> CoverMessage {
    CoverMessage {
        version: 1,
        message_id: "m-1".to_string(),
        sender_account_id: a.account_id.clone(),
        receiver_account_id: b.account_id.clone(),
        chat_id: "c-1".to_string(),
        created_date: "2024-05-01T10:00:00+00:00".to_string(),
        payload_type: "text".to_string(),
        body: body.to_string(),
    }
}

#[test]
fn cover_json_has_fields_in_order() {
    let c = CoverMessage {
        version: 1,
        message_id: "m".to_string(),
        sender_account_id: "s".to_string(),
        receiver_account_id: "r".to_string(),
        chat_id: "c".to_string(),
        created_date: "d".to_string(),
        payload_type: "text".to_string(),
        body: "say \"hi\"\n".to_string(),
    };
    assert_eq!(
        cover_to_json(&c),
        "{\"version\":1,\"message_id\":\"m\",\"sender_account_id\":\"s\",\"receiver_account_id\":\"r\",\"chat_id\":\"c\",\"created_date\":\"d\",\"payload_type\":\"text\",\"body\":\"say \\\"hi\\\"\\n\"}"
    );
    let parsed: serde_json::Value = serde_json::from_str(&cover_to_json(&c)).unwrap();
    assert_eq!(parsed["body"], "say \"hi\"\n");
    assert_eq!(parsed["version"], 1);
}

#[test]
fn encode_then_decode_gives_the_json_bytes() {
    let c = cover_from(&alice_in_cover(), &bob_in_cover(), "hello ünïcode ✓");
    let encoded = encode_cover_message(&c).unwrap();
    let expected = base64::engine::general_purpose::URL_SAFE_NO_PAD.encode(cover_to_json(&c));
    assert_eq!(encoded, expected);
    assert!(encoded.chars().all(|ch| ch.is_ascii_alphanumeric() || ch == '-' || ch == '_'));
    assert_eq!(decode_cover_message(&encoded).unwrap(), cover_to_json(&c).into_bytes());
    assert_eq!(decode_cover_message("a+b/"), Err(url_refusal("a+b/")));
    assert_eq!(decode_signed_cover_message("Zm9v").unwrap(), b"foo".to_vec());
}

#[test]
fn signed_cover_verifies_at_its_receiver() {
    let a = alice_in_cover();
    let b = bob_in_cover();
    let c = cover_from(&a, &b, "hello");
    let signed = sign_cover(&c, &a).unwrap();
    assert_eq!(signed.cover, encode_cover_message(&c).unwrap());
    let verified = verify_signed_cover(&signed, &b, c.clone(), Some(a.public_key.clone()));
    assert_eq!(verified, Ok(c));
}

#[test]
fn signed_cover_refusals() {
    let a = alice_in_cover();
    let b = bob_in_cover();
    let c = cover_from(&a, &b, "hello");
    let signed = sign_cover(&c, &a).unwrap();
    // delivered to the wrong account
    assert_eq!(
        verify_signed_cover(&signed, &a, c.clone(), Some(a.public_key.clone())),
        Err(SkyError::AddressedToAnotherAccount)
    );
    assert_eq!(
        SkyError::AddressedToAnotherAccount.message(),
        "message is addressed to another account!"
    );
    // no key stored for the sender
    let missing = verify_signed_cover(&signed, &b, c.clone(), None);
    assert_eq!(missing, Err(SkyError::PublicKeyNotFound(a.account_id.clone())));
    assert_eq!(
        missing.unwrap_err().message(),
        format!("Contact public key not found for peer: {}", a.account_id)
    );
    // the stored key belongs to someone else
    let mismatch = verify_signed_cover(&signed, &b, c.clone(), Some(b.public_key.clone()));
    assert_eq!(mismatch, Err(SkyError::CoverSenderMismatch));
    assert_eq!(mismatch.unwrap_err().message(), "sender id doesn't match with expected id");
    // the cover text was altered after signing
    let mut tampered = signed.clone();
    tampered.cover = encode_cover_message(&cover_from(&a, &b, "hellp")).unwrap();
    let rejected = verify_signed_cover(&tampered, &b, c.clone(), Some(a.public_key.clone()));
    let public = ed25519_dalek::SigningKey::from_bytes(&[1u8; 32]).verifying_key();
    let sig: [u8; 64] = base64::engine::general_purpose::STANDARD
        .decode(&signed.sign)
        .unwrap()
        .try_into()
        .unwrap();
    let reason = {
        public
            .verify(tampered.cover.as_bytes(), &ed25519_dalek::Signature::from_bytes(&sig))
            .unwrap_err()
            .to_string()
    };
    assert_eq!(rejected, Err(SkyError::SignatureRejected(reason.clone())));
    assert_eq!(
        rejected.unwrap_err().message(),
        format!("signature verification is failed: {}", reason)
    );
    let broken = SignedCoverMessage { cover: signed.cover.clone(), sign: "***".to_string() };
    assert_eq!(
        verify_signed_cover(&broken, &b, c.clone(), Some(a.public_key.clone())),
        Err(standard_refusal("***"))
    );
}

#[test]
fn invalid_point_is_refused() {
    let a = alice_in_cover();
    let b = bob_in_cover();
    let mut bad = [0u8; 32];
    let mut found = false;
    for first in 2u8..=255 {
        bad[0] = first;
        bad[31] = 0x7f;
        if ed25519_dalek::VerifyingKey::from_bytes(&bad).is_err() {
            found = true;
            break;
        }
    }
    assert!(found);
    let mut c = cover_from(&a, &b, "hi");
    c.sender_account_id = get_account_id(&bad);
    let signed = sign_cover(&c, &a).unwrap();
    let key = base64::engine::general_purpose::STANDARD.encode(bad);
    let reason = ed25519_dalek::VerifyingKey::from_bytes(&bad).unwrap_err().to_string();
    assert_eq!(
        verify_signed_cover(&signed, &b, c, Some(key)),
        Err(SkyError::InvalidPublicKey(reason))
    );
}

#[test]
fn signing_needs_a_usable_private_key() {
    let mut a = alice_in_cover();
    let c = cover_from(&a, &bob_in_cover(), "x");
    a.private_key = "!!".to_string();
    assert_eq!(sign_cover(&c, &a), Err(standard_refusal("!!")));
    a.private_key = base64::engine::general_purpose::STANDARD.encode([0u8; 16]);
    let refused = sign_cover(&c, &a);
    assert_eq!(refused, Err(SkyError::SigningKeyLength));
    assert_eq!(refused.unwrap_err().message(), "private key lenght is incorrect");
}

#[test]
fn cover_of_a_stored_message() {
    let m = Message {
        message_id: "id".to_string(),
        chat_id: "chat".to_string(),
        account_id: "me".to_string(),
        peer_account_id: "you".to_string(),
        direction: "outgoing".to_string(),
        body: "body".to_string(),
        delivery_state: "local".to_string(),
        created_date: "now".to_string(),
    };
    let c = get_cover_message(&m);
    assert_eq!(
        c,
        CoverMessage {
            version: 1,
            message_id: "id".to_string(),
            sender_account_id: "me".to_string(),
            receiver_account_id: "you".to_string(),
            chat_id: "chat".to_string(),
            created_date: "now".to_string(),
            payload_type: "text".to_string(),
            body: "body".to_string(),
        }
    );
}

#[test]
fn json_text_escapes_like_serde_json() {
    let body = "q\"b\\s\u{8}\t\n\u{c}\r\u{1}\u{1f}\u{7f}é/✓";
    let mut c = cover_from(&alice_in_cover(), &bob_in_cover(), body);
    c.message_id = "m".to_string();
    let json = cover_to_json(&c);
    assert!(json.ends_with(",\"body\":\"q\\\"b\\\\s\\b\\t\\n\\f\\r\\u0001\\u001f\u{7f}é/✓\"}"));
    assert!(json.ends_with(&format!(",\"body\":{}}}", serde_json::to_string(body).unwrap())));
}
