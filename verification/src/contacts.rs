//! Contacts: peers added through their invite tokens.

use vstd::prelude::*;

use crate::encoding::decoded_text;
use crate::error::{Refusal, SkyError};
use crate::identity::Account;
use crate::invites::{decode_invite_payload, invite_check, verify_invite_token, InviteToken, Payload};

verus! {

/// The text of an optional stored key.
pub open spec fn stored_view(stored: Option<String>) -> Option<Seq<char>> {
    match stored {
        Some(k) => Some(k@),
        None => None,
    }
}

/// A peer of the local account.
#[derive(Debug, Clone, PartialEq, Eq)]
pub struct Contact {
    pub contact_id: String,
    pub account_id: String,
    pub peer_account_id: String,
    pub peer_public_key: String,
    pub peer_encryption_public_key: Option<String>,
    pub nickname: Option<String>,
    pub trusted: String,
    pub created_date: String,
}

/// The stored contact, if it is the one of `my_account` with the account
/// that `payload` introduces.
pub open spec fn matching_contact(existing: Option<Contact>, my_account: Account, payload: Payload) -> Option<Contact> {
    match existing {
        Some(old) => if old.account_id@ == my_account.account_id@ && old.peer_account_id@
            == payload.account_id@ {
            Some(old)
        } else {
            None
        },
        None => None,
    }
}

/// The contact as adding the verified `payload` leaves it, given the contact
/// already stored for the same peer (if any): a stored contact keeps its id,
/// its date and, where no nickname is given, its nickname, and takes the
/// payload's keys; a new one gets `contact_id` and `created_date`. Either way
/// it is trusted.
pub open spec fn contact_after(
    contact: Contact,
    my_account: Account,
    payload: Payload,
    nickname: Option<String>,
    existing: Option<Contact>,
    contact_id: String,
    created_date: String,
) -> bool {
    &&& contact.peer_public_key == payload.public_key
    &&& contact.peer_encryption_public_key == payload.encryption_public_key
    &&& contact.trusted@ == "trusted"@
    &&& match matching_contact(existing, my_account, payload) {
        Some(old) => {
            &&& contact.contact_id == old.contact_id
            &&& contact.account_id == old.account_id
            &&& contact.peer_account_id == old.peer_account_id
            &&& contact.created_date == old.created_date
            &&& contact.nickname == (if nickname is Some { nickname } else { old.nickname })
        },
        None => {
            &&& contact.contact_id == contact_id
            &&& contact.account_id == my_account.account_id
            &&& contact.peer_account_id == payload.account_id
            &&& contact.created_date == created_date
            &&& contact.nickname == nickname
        },
    }
}

/// Adds the account introduced by a verified invite `payload` as a contact of
/// `my_account`. `existing` is the contact stored for the account and the
/// payload's account, if any (another stored contact counts as none). An
/// account cannot add itself.
pub fn add_contact(
    my_account: &Account,
    payload: Payload,
    nickname: Option<String>,
    existing: Option<Contact>,
    contact_id: String,
    created_date: String,
) -> (contact: Result<Contact, SkyError>)
    ensures
        payload.account_id@ == my_account.account_id@ <==> contact is Err,
        contact is Err ==> contact == Err::<Contact, SkyError>(SkyError::SelfContact),
        contact is Ok ==> contact_after(
            contact.unwrap(),
            *my_account,
            payload,
            nickname,
            existing,
            contact_id,
            created_date,
        ),
{
    if payload.account_id == my_account.account_id {
        return Err(SkyError::SelfContact);
    }
    let trusted = String::from_str("trusted");
    let stored = match existing {
        Some(old) => if old.account_id == my_account.account_id && old.peer_account_id
            == payload.account_id {
            Some(old)
        } else {
            None
        },
        None => None,
    };
    match stored {
        Some(old) => {
            let kept_nickname = match nickname {
                Some(n) => Some(n),
                None => old.nickname,
            };
            Ok(Contact {
                contact_id: old.contact_id,
                account_id: old.account_id,
                peer_account_id: old.peer_account_id,
                peer_public_key: payload.public_key,
                peer_encryption_public_key: payload.encryption_public_key,
                nickname: kept_nickname,
                trusted,
                created_date: old.created_date,
            })
        },
        None => Ok(Contact {
            contact_id,
            account_id: my_account.account_id.clone(),
            peer_account_id: payload.account_id,
            peer_public_key: payload.public_key,
            peer_encryption_public_key: payload.encryption_public_key,
            nickname,
            trusted,
            created_date,
        }),
    }
}

/// What adding the contact that `invite` introduces gives: the invite's
/// payload must decode, `payload` (what its bytes hold) must pass the invite
/// check on those bytes, and it must introduce another account than
/// `my_account`.
pub open spec fn invited_contact_outcome(my_account: Account, invite: InviteToken, payload: Payload) -> Result<(), Refusal> {
    match decoded_text(invite.payload@) {
        Err(r) => Err(r),
        Ok(payload_bytes) => match invite_check(invite, payload_bytes, payload) {
            Err(r) => Err(r),
            Ok(()) => if payload.account_id@ == my_account.account_id@ {
                Err(Refusal::SelfContact)
            } else {
                Ok(())
            },
        },
    }
}

/// Adds the account that an invite introduces as a contact of `my_account`.
/// `invite` is read from the token's JSON bytes and `payload` from the JSON
/// bytes of `invite.payload`; the invite is checked before anything is
/// added, so a refused invite adds no contact. `existing`, `contact_id` and
/// `created_date` are as for `add_contact`.
pub fn add_invited_contact(
    my_account: &Account,
    invite: &InviteToken,
    payload: Payload,
    nickname: Option<String>,
    existing: Option<Contact>,
    contact_id: String,
    created_date: String,
) -> (contact: Result<Contact, SkyError>)
    ensures
        match contact {
            Ok(c) => invited_contact_outcome(*my_account, *invite, payload) == Ok::<(), Refusal>(())
                && contact_after(c, *my_account, payload, nickname, existing, contact_id, created_date),
            Err(e) => invited_contact_outcome(*my_account, *invite, payload) == Err::<(), Refusal>(e@),
        },
{
    let payload_bytes = decode_invite_payload(invite)?;
    let verified = verify_invite_token(invite, payload_bytes.as_slice(), payload)?;
    add_contact(my_account, verified, nickname, existing, contact_id, created_date)
}

/// What looking up a stored key gives: the key, or the refusal `missing`
/// where none is stored.
pub open spec fn stored_key(stored: Option<Seq<char>>, missing: Refusal) -> Result<Seq<char>, Refusal> {
    match stored {
        Some(k) => Ok(k),
        None => Err(missing),
    }
}

/// The peer's signing public key as stored among the contacts; a peer with
/// no stored key is refused, naming the peer.
pub fn get_public_key(stored: Option<String>, peer_account_id: &str) -> (public_key: Result<String, SkyError>)
    ensures
        crate::encoding::text_result(public_key) == stored_key(
            stored_view(stored),
            Refusal::PublicKeyNotFound(peer_account_id@),
        ),
        stored is Some ==> public_key == Ok::<String, SkyError>(stored.unwrap()),
{
    match stored {
        Some(k) => Ok(k),
        None => Err(SkyError::PublicKeyNotFound(peer_account_id.to_owned())),
    }
}

/// The peer's encryption public key as stored among the contacts; a peer
/// with no stored key is refused, naming the peer.
pub fn get_peer_encryption_public_key(stored: Option<String>, peer_account_id: &str) -> (public_key: Result<String, SkyError>)
    ensures
        crate::encoding::text_result(public_key) == stored_key(
            stored_view(stored),
            Refusal::EncryptionKeyNotFound(peer_account_id@),
        ),
        stored is Some ==> public_key == Ok::<String, SkyError>(stored.unwrap()),
{
    match stored {
        Some(k) => Ok(k),
        None => Err(SkyError::EncryptionKeyNotFound(peer_account_id.to_owned())),
    }
}

} // verus!
