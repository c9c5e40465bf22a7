//! Core of the Sky messenger: identities, invite tokens, signed message
//! covers, delivery confirmations and the rules that decide what is stored.

pub mod error;
pub mod encoding;
pub mod crypto;
pub mod clock;
pub mod identity;
pub mod contacts;
pub mod json;
pub mod messages;
pub mod cover;
pub mod confirm;
pub mod invites;
pub mod chats;
pub mod transport;
