use sky_core::chats::{get_chat, Chat};
use sky_core::contacts::{add_contact, get_peer_encryption_public_key, get_public_key, Contact};
use sky_core::cover::CoverMessage;
use sky_core::error::SkyError;
use sky_core::identity::{account_from_secrets, Account};
use sky_core::invites::Payload;
use sky_core::messages::{check_receiver, incoming_message_saver, outgoing_message_saver};

fn alice_in_store() -> Account {
    account_from_secrets([1u8; 32], [2u8; 32])
}

fn bob_in_store() -> Account {
    account_from_secrets([3u8; 32], [4u8; 32])
}

fn invite_of(b: &Account) -> Payload {
    Payload {
        version: 1,
        account_id: b.account_id.clone(),
        public_key: b.public_key.clone(),
        created_date: "d".to_string(),
        token_type: "multi_use".to_string(),
        encryption_public_key: Some(b.encryption_public_key.clone()),
    }
}

#[test]
fn adding_a_contact() {
    let a = alice_in_store();
    let b = bob_in_store();
    let c = add_contact(&a, invite_of(&b), Some("Bob".to_string()), None, "k1".to_string(), "t".to_string())
        .unwrap();
    assert_eq!(
        c,
        Contact {
            contact_id: "k1".to_string(),
            account_id: a.account_id.clone(),
            peer_account_id: b.account_id.clone(),
            peer_public_key: b.public_key.clone(),
            peer_encryption_public_key: Some(b.encryption_public_key.clone()),
            nickname: Some("Bob".to_string()),
            trusted: "trusted".to_string(),
            created_date: "t".to_string(),
        }
    );
    // adding again keeps the id, the date and the nickname
    let again = add_contact(&a, invite_of(&b), None, Some(c.clone()), "k2".to_string(), "t2".to_string())
        .unwrap();
    assert_eq!(again, c);
    let renamed =
        add_contact(&a, invite_of(&b), Some("B".to_string()), Some(c.clone()), "k3".to_string(), "t3".to_string())
            .unwrap();
    assert_eq!(renamed.nickname, Some("B".to_string()));
    assert_eq!(renamed.contact_id, "k1");
}

#[test]
fn adding_oneself_is_refused() {
    let a = alice_in_store();
    let refused = add_contact(&a, invite_of(&a), None, None, "k".to_string(), "t".to_string());
    assert_eq!(refused, Err(SkyError::SelfContact));
    assert_eq!(refused.unwrap_err().message(), "you cannot add yourself!");
}

#[test]
fn a_contact_of_another_pair_is_not_reused() {
    let a = alice_in_store();
    let b = bob_in_store();
    let other = account_from_secrets([5u8; 32], [6u8; 32]);
    let theirs = add_contact(&a, invite_of(&other), None, None, "k9".to_string(), "t9".to_string())
        .unwrap();
    let c = add_contact(&a, invite_of(&b), None, Some(theirs), "k1".to_string(), "t".to_string())
        .unwrap();
    assert_eq!(c.contact_id, "k1");
    assert_eq!(c.peer_account_id, b.account_id);
    assert_eq!(c.created_date, "t");
}

#[test]
fn an_invite_without_encryption_key_clears_the_stored_one() {
    let a = alice_in_store();
    let b = bob_in_store();
    let c = add_contact(&a, invite_of(&b), None, None, "k1".to_string(), "t".to_string()).unwrap();
    let mut plain = invite_of(&b);
    plain.encryption_public_key = None;
    let again = add_contact(&a, plain, None, Some(c), "k2".to_string(), "t2".to_string()).unwrap();
    assert_eq!(again.peer_encryption_public_key, None);
    assert_eq!(again.contact_id, "k1");
}

#[test]
fn stored_keys_are_required() {
    assert_eq!(get_public_key(Some("k".to_string()), "p"), Ok("k".to_string()));
    let missing = get_public_key(None, "peer-1");
    assert_eq!(missing, Err(SkyError::PublicKeyNotFound("peer-1".to_string())));
    assert_eq!(missing.unwrap_err().message(), "Contact public key not found for peer: peer-1");
    assert_eq!(get_peer_encryption_public_key(Some("e".to_string()), "p"), Ok("e".to_string()));
    let missing = get_peer_encryption_public_key(None, "peer-2");
    assert_eq!(missing, Err(SkyError::EncryptionKeyNotFound("peer-2".to_string())));
    assert_eq!(
        missing.unwrap_err().message(),
        "Contact encryption public key not found for peer: peer-2"
    );
}

fn contact_of(a: &Account, b: &Account) -> Contact {
    add_contact(a, invite_of(b), None, None, "k1".to_string(), "t".to_string()).unwrap()
}

#[test]
fn a_chat_is_opened_once() {
    let a = alice_in_store();
    let b = bob_in_store();
    let contact = contact_of(&a, &b);
    let chat = get_chat(None, &a, &contact, "c1".to_string(), "t1".to_string());
    assert_eq!(
        chat,
        Chat {
            chat_id: "c1".to_string(),
            account_id: a.account_id.clone(),
            contact_id: "k1".to_string(),
            peer_account_id: b.account_id.clone(),
            created_date: "t1".to_string(),
            last_message_date: None,
        }
    );
    let again = get_chat(Some(chat.clone()), &a, &contact, "c2".to_string(), "t2".to_string());
    assert_eq!(again, chat);
    // a chat with another peer is not taken for this one
    let mut elsewhere = chat.clone();
    elsewhere.peer_account_id = "someone else".to_string();
    let fresh = get_chat(Some(elsewhere), &a, &contact, "c3".to_string(), "t3".to_string());
    assert_eq!(fresh.chat_id, "c3");
    assert_eq!(fresh.peer_account_id, b.account_id);
}

#[test]
fn messages_in_both_directions() {
    let a = alice_in_store();
    let b = bob_in_store();
    let chat = get_chat(None, &a, &contact_of(&a, &b), "c1".to_string(), "t1".to_string());
    let out = outgoing_message_saver(&a, &chat, "hello", "m1".to_string(), "t2".to_string());
    assert_eq!(out.direction, "outgoing");
    assert_eq!(out.delivery_state, "local");
    assert_eq!(out.peer_account_id, b.account_id);
    assert_eq!(out.chat_id, "c1");
    assert_eq!(out.body, "hello");

    let cover = CoverMessage {
        version: 1,
        message_id: "m9".to_string(),
        sender_account_id: b.account_id.clone(),
        receiver_account_id: a.account_id.clone(),
        chat_id: "their-chat".to_string(),
        created_date: "t3".to_string(),
        payload_type: "text".to_string(),
        body: "hey".to_string(),
    };
    let inc = incoming_message_saver(&a, &cover, Some(chat.clone()), false).unwrap();
    assert_eq!(inc.direction, "incoming");
    assert_eq!(inc.delivery_state, "received");
    assert_eq!(inc.chat_id, "c1");
    assert_eq!(inc.peer_account_id, b.account_id);
    assert_eq!(inc.account_id, a.account_id);
    assert_eq!(inc.created_date, "t3");
    assert_eq!(
        incoming_message_saver(&b, &cover, Some(chat.clone()), false),
        Err(SkyError::AddressedToAnotherAccount)
    );
    let no_chat = incoming_message_saver(&a, &cover, None, false);
    assert_eq!(no_chat, Err(SkyError::ChatNotFound));
    assert_eq!(
        no_chat.unwrap_err().message(),
        "no rows returned by a query that expected to return at least one row"
    );
    // a chat with another peer counts as none
    let mut other_chat = chat.clone();
    other_chat.peer_account_id = a.account_id.clone();
    assert_eq!(
        incoming_message_saver(&a, &cover, Some(other_chat), false),
        Err(SkyError::ChatNotFound)
    );
    let twice = incoming_message_saver(&a, &cover, Some(chat), true);
    assert_eq!(twice, Err(SkyError::MessageAlreadyExists("m9".to_string())));
    assert_eq!(twice.unwrap_err().message(), "message already exists: m9");
}

#[test]
fn the_receiver_is_checked_first() {
    let a = alice_in_store();
    let b = bob_in_store();
    let cover = CoverMessage {
        version: 1,
        message_id: "m1".to_string(),
        sender_account_id: b.account_id.clone(),
        receiver_account_id: a.account_id.clone(),
        chat_id: "c".to_string(),
        created_date: "t".to_string(),
        payload_type: "text".to_string(),
        body: "x".to_string(),
    };
    assert_eq!(check_receiver(&a, &cover), Ok(()));
    assert_eq!(check_receiver(&b, &cover), Err(SkyError::AddressedToAnotherAccount));
    // without a chat and with a duplicate, the receiver still decides first
    assert_eq!(
        incoming_message_saver(&b, &cover, None, true),
        Err(SkyError::AddressedToAnotherAccount)
    );
}
