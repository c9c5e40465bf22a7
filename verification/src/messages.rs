//! Messages as stored: incoming ones received from peers, outgoing ones
//! written locally, and their delivery states.

use vstd::prelude::*;

use crate::chats::Chat;
use crate::cover::CoverMessage;
use crate::error::{Refusal, SkyError};
use crate::identity::Account;

verus! {

/// A stored message.
#[derive(Debug, Clone, PartialEq, Eq)]
pub struct Message {
    pub message_id: String,
    pub chat_id: String,
    pub account_id: String,
    pub peer_account_id: String,
    pub direction: String,
    pub body: String,
    pub delivery_state: String,
    pub created_date: String,
}

/// What receiving a verified cover gives at `account`, given the chat it
/// holds with the sender (if any) and whether the message is already stored:
/// the cover must be addressed to the account, the chat must exist, and the
/// message must be new.
pub open spec fn incoming_outcome(account: Account, cover_message: CoverMessage, chat: Option<Chat>, already_exists: bool) -> Result<(), Refusal> {
    if account.account_id@ != cover_message.receiver_account_id@ {
        Err(Refusal::AddressedToAnotherAccount)
    } else if sender_chat(chat, account, cover_message) is None {
        Err(Refusal::ChatNotFound)
    } else if already_exists {
        Err(Refusal::MessageAlreadyExists(cover_message.message_id@))
    } else {
        Ok(())
    }
}

/// The given chat, if it is the account's chat with the cover's sender.
pub open spec fn sender_chat(chat: Option<Chat>, account: Account, cover_message: CoverMessage) -> Option<Chat> {
    match chat {
        Some(c) => if c.account_id@ == account.account_id@ && c.peer_account_id@
            == cover_message.sender_account_id@ {
            Some(c)
        } else {
            None
        },
        None => None,
    }
}

/// The stored form of a received cover: incoming and received, in the chat
/// with its sender.
pub open spec fn incoming_message(m: Message, account: Account, cover_message: CoverMessage, chat: Chat) -> bool {
    &&& m.message_id == cover_message.message_id
    &&& m.chat_id == chat.chat_id
    &&& m.account_id == account.account_id
    &&& m.peer_account_id == cover_message.sender_account_id
    &&& m.direction@ == "incoming"@
    &&& m.body == cover_message.body
    &&& m.delivery_state@ == "received"@
    &&& m.created_date == cover_message.created_date
}

/// Checks that a received cover is addressed to `account`.
pub fn check_receiver(account: &Account, cover_message: &CoverMessage) -> (res: Result<(), SkyError>)
    ensures
        res is Ok <==> account.account_id@ == cover_message.receiver_account_id@,
        res is Err ==> res == Err::<(), SkyError>(SkyError::AddressedToAnotherAccount),
{
    if account.account_id == cover_message.receiver_account_id {
        Ok(())
    } else {
        Err(SkyError::AddressedToAnotherAccount)
    }
}

/// Stores a received, verified cover. `chat` is the chat of the account with
/// the cover's sender, if any (another chat counts as none); `already_exists`
/// whether a message with the cover's id is already stored for the account.
pub fn incoming_message_saver(account: &Account, cover_message: &CoverMessage, chat: Option<Chat>, already_exists: bool) -> (message: Result<Message, SkyError>)
    ensures
        match message {
            Ok(m) => incoming_outcome(*account, *cover_message, chat, already_exists) == Ok::<(), Refusal>(())
                && incoming_message(m, *account, *cover_message, chat.unwrap()),
            Err(e) => incoming_outcome(*account, *cover_message, chat, already_exists) == Err::<(), Refusal>(e@),
        },
        message matches Ok(m) ==> {
            &&& m.body == cover_message.body
            &&& m.message_id == cover_message.message_id
            &&& m.created_date == cover_message.created_date
            &&& m.peer_account_id == cover_message.sender_account_id
            &&& m.account_id == account.account_id
            &&& m.direction@ == "incoming"@
            &&& m.delivery_state@ == "received"@
        },
{
    check_receiver(account, cover_message)?;
    let chat = match chat {
        Some(c) => if c.account_id == account.account_id && c.peer_account_id
            == cover_message.sender_account_id {
            c
        } else {
            return Err(SkyError::ChatNotFound);
        },
        None => return Err(SkyError::ChatNotFound),
    };
    if already_exists {
        return Err(SkyError::MessageAlreadyExists(cover_message.message_id.clone()));
    }
    Ok(Message {
        message_id: cover_message.message_id.clone(),
        chat_id: chat.chat_id,
        account_id: account.account_id.clone(),
        peer_account_id: cover_message.sender_account_id.clone(),
        direction: String::from_str("incoming"),
        body: cover_message.body.clone(),
        delivery_state: String::from_str("received"),
        created_date: cover_message.created_date.clone(),
    })
}

/// The stored form of a message written locally: outgoing and local, sent
/// to the chat's peer.
pub open spec fn outgoing_message(m: Message, my_account: Account, chat: Chat, body: Seq<char>, message_id: String, created_date: String) -> bool {
    &&& m.message_id == message_id
    &&& m.chat_id == chat.chat_id
    &&& m.account_id == my_account.account_id
    &&& m.peer_account_id == chat.peer_account_id
    &&& m.direction@ == "outgoing"@
    &&& m.body@ == body
    &&& m.delivery_state@ == "local"@
    &&& m.created_date == created_date
}

/// The message that `my_account` writes in `chat`, with the id and date it
/// is given.
pub fn outgoing_message_saver(my_account: &Account, chat: &Chat, body: &str, message_id: String, created_date: String) -> (message: Message)
    ensures
        outgoing_message(message, *my_account, *chat, body@, message_id, created_date),
        message.created_date == created_date,
        message.body@ == body@,
        message.message_id == message_id,
        message.chat_id == chat.chat_id,
        message.account_id == my_account.account_id,
        message.peer_account_id == chat.peer_account_id,
        message.direction@ == "outgoing"@,
        message.delivery_state@ == "local"@,
{
    Message {
        message_id,
        chat_id: chat.chat_id.clone(),
        account_id: my_account.account_id.clone(),
        peer_account_id: chat.peer_account_id.clone(),
        direction: String::from_str("outgoing"),
        body: body.to_owned(),
        delivery_state: String::from_str("local"),
        created_date,
    }
}

/// A message stored from a received cover carries what the sender wrote:
/// the cover's text, id and date, from the cover's sender to the receiving
/// account, in the account's chat with that sender. It is stored as
/// received, never as one of the account's own outgoing messages.
pub proof fn law_received_message_is_the_cover(
    account: Account,
    cover_message: CoverMessage,
    chat: Chat,
    already_exists: bool,
    m: Message,
)
    requires
        incoming_outcome(account, cover_message, Some(chat), already_exists) is Ok,
        incoming_message(m, account, cover_message, chat),
    ensures
        m.body == cover_message.body,
        m.message_id == cover_message.message_id,
        m.created_date == cover_message.created_date,
        m.peer_account_id@ == cover_message.sender_account_id@,
        m.account_id@ == cover_message.receiver_account_id@,
        m.chat_id == chat.chat_id,
        chat.peer_account_id@ == m.peer_account_id@,
        m.direction@ != "outgoing"@,
        m.delivery_state@ == "received"@,
{
    reveal_strlit("incoming");
    reveal_strlit("outgoing");
    assert("incoming"@[0] != "outgoing"@[0]);
}

/// A message written locally holds the text written and is dated when it is
/// saved, whatever the dates of its chat; it goes to the chat's peer, is
/// outgoing and is not delivered yet.
pub proof fn law_written_message_is_dated_when_saved(
    my_account: Account,
    chat: Chat,
    body: Seq<char>,
    message_id: String,
    created_date: String,
    m: Message,
)
    requires
        outgoing_message(m, my_account, chat, body, message_id, created_date),
    ensures
        m.created_date == created_date,
        m.body@ == body,
        m.message_id == message_id,
        m.chat_id == chat.chat_id,
        m.peer_account_id == chat.peer_account_id,
        m.direction@ != "incoming"@,
        m.delivery_state@ != "delivered"@,
{
    reveal_strlit("incoming");
    reveal_strlit("outgoing");
    reveal_strlit("local");
    reveal_strlit("delivered");
    assert("incoming"@[0] != "outgoing"@[0]);
    assert("local"@[0] != "delivered"@[0]);
}

/// What a receiver stores is what the sender wrote: a message written by
/// `sender` and sent as its cover (the cover of a stored message carries its
/// id, sender, receiver, date and text) is stored at the receiver with the
/// same text, id and date, from the sender.
pub proof fn law_receiver_stores_what_was_written(
    sender: Account,
    sender_chat: Chat,
    body: Seq<char>,
    message_id: String,
    created_date: String,
    written: Message,
    cover_message: CoverMessage,
    receiver: Account,
    receiver_chat: Chat,
    stored: Message,
)
    requires
        outgoing_message(written, sender, sender_chat, body, message_id, created_date),
        cover_message.message_id == written.message_id,
        cover_message.sender_account_id == written.account_id,
        cover_message.receiver_account_id == written.peer_account_id,
        cover_message.created_date == written.created_date,
        cover_message.body == written.body,
        incoming_outcome(receiver, cover_message, Some(receiver_chat), false) is Ok,
        incoming_message(stored, receiver, cover_message, receiver_chat),
    ensures
        stored.body@ == body,
        stored.message_id == message_id,
        stored.created_date == created_date,
        stored.peer_account_id == sender.account_id,
        stored.account_id@ == sender_chat.peer_account_id@,
{
}

} // verus!
