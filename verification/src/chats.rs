//! Chats: one per account and peer.

use vstd::prelude::*;

use crate::contacts::Contact;
use crate::identity::Account;

verus! {

/// A chat of the local account with one peer.
#[derive(Debug, Clone, PartialEq, Eq)]
pub struct Chat {
    pub chat_id: String,
    pub account_id: String,
    pub contact_id: String,
    pub peer_account_id: String,
    pub created_date: String,
    pub last_message_date: Option<String>,
}

/// The chat that opening a chat with `contact` creates, with the id and
/// date it is given and no message yet.
pub open spec fn new_chat(chat: Chat, my_account: Account, contact: Contact, chat_id: String, created_date: String) -> bool {
    &&& chat.chat_id == chat_id
    &&& chat.account_id == my_account.account_id
    &&& chat.contact_id == contact.contact_id
    &&& chat.peer_account_id == contact.peer_account_id
    &&& chat.created_date == created_date
    &&& chat.last_message_date is None
}

/// The stored chat, if it is the one of `my_account` with the contact's peer.
pub open spec fn peer_chat(existing: Option<Chat>, my_account: Account, contact: Contact) -> Option<Chat> {
    match existing {
        Some(c) => if c.account_id@ == my_account.account_id@ && c.peer_account_id@
            == contact.peer_account_id@ {
            Some(c)
        } else {
            None
        },
        None => None,
    }
}

/// Opens the chat of `my_account` with `contact`. `existing` is the chat
/// already stored for the account and the contact's peer, if any (another
/// chat counts as none): it is kept as it is; otherwise the new chat gets
/// `chat_id` and `created_date`.
pub fn get_chat(existing: Option<Chat>, my_account: &Account, contact: &Contact, chat_id: String, created_date: String) -> (chat: Chat)
    ensures
        peer_chat(existing, *my_account, *contact) is Some ==> chat == existing.unwrap(),
        peer_chat(existing, *my_account, *contact) is None ==> new_chat(
            chat,
            *my_account,
            *contact,
            chat_id,
            created_date,
        ),
{
    let stored = match existing {
        Some(c) => if c.account_id == my_account.account_id && c.peer_account_id
            == contact.peer_account_id {
            Some(c)
        } else {
            None
        },
        None => None,
    };
    match stored {
        Some(chat) => chat,
        None => Chat {
            chat_id,
            account_id: my_account.account_id.clone(),
            contact_id: contact.contact_id.clone(),
            peer_account_id: contact.peer_account_id.clone(),
            created_date,
            last_message_date: None,
        },
    }
}

} // verus!
