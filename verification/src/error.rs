use vstd::prelude::*;

use crate::encoding::decimal;
use crate::encoding::decimal_text;

verus! {

/// Every way in which an operation of the library can be refused.
#[derive(Debug, Clone, PartialEq, Eq)]
pub enum SkyError {
    /// A base64 text does not decode; the decoder's message.
    InvalidBase64(String),
    /// The private key does not decode to 32 bytes, when generating an invite.
    PrivateKeyLength,
    /// The private key does not decode to 32 bytes, when signing a record.
    SigningKeyLength,
    /// A public key does not decode to 32 bytes.
    PublicKeyLength,
    /// A public key is not a valid Ed25519 point; the key parser's message.
    InvalidPublicKey(String),
    /// The signature of a record does not decode to 64 bytes.
    SignatureLength,
    /// The signature of an invite does not decode to 64 bytes.
    InviteSignatureLength,
    /// The signature of a record does not verify; the verifier's message.
    SignatureRejected(String),
    /// The signature of an invite does not verify; the verifier's message.
    InviteSignatureRejected(String),
    /// The stored private key does not belong to the stored public key.
    KeyPairMismatch,
    /// An encryption private key does not decode to 32 bytes.
    EncryptionKeyLength,
    /// A peer encryption public key does not decode to 32 bytes.
    PeerEncryptionKeyLength,
    /// Key expansion failed.
    KeyExpansion,
    /// A record is too long for its base64 encoding to be sized in memory.
    TooLong,
    /// An invite token has another version than 1.
    UnsupportedVersion,
    /// An invite token is not of type `multi_use`.
    UnsupportedTokenType,
    /// The account id of an invite does not match its public key.
    AccountIdMismatch,
    /// The sender of a cover does not match the sender's public key.
    CoverSenderMismatch,
    /// The sender of a confirmation does not match the sender's public key.
    ConfirmSenderMismatch,
    /// A message or cover is addressed to another account.
    AddressedToAnotherAccount,
    /// A delivery confirmation is addressed to another account.
    ConfirmAddressedToAnotherAccount,
    /// A transport packet is addressed to another account.
    PacketAddressedToAnotherAccount,
    /// A transport packet has this unsupported version.
    UnsupportedTransportVersion(u8),
    /// A transport packet has an unknown type.
    UnknownPacketType,
    /// An account tried to add itself as a contact.
    SelfContact,
    /// No public key is stored for this peer.
    PublicKeyNotFound(String),
    /// No encryption public key is stored for this peer.
    EncryptionKeyNotFound(String),
    /// No chat is stored with the peer.
    ChatNotFound,
    /// The message is not stored.
    MessageNotFound,
    /// The message with this id is already stored.
    MessageAlreadyExists(String),
    /// The confirmed message is not outgoing.
    NotOutgoing,
    /// The confirmation comes from another account than the message's peer.
    ConfirmPeerMismatch,
    /// The delivery update did not change exactly one message.
    MessageNotUpdated,
    /// The message is not in the delivered state after the update.
    NotDelivered,
}

/// A refusal as contracts see it: the texts it carries are seen as
/// sequences of characters.
pub enum Refusal {
    InvalidBase64(Seq<char>),
    PrivateKeyLength,
    SigningKeyLength,
    PublicKeyLength,
    InvalidPublicKey(Seq<char>),
    SignatureLength,
    InviteSignatureLength,
    SignatureRejected(Seq<char>),
    InviteSignatureRejected(Seq<char>),
    KeyPairMismatch,
    EncryptionKeyLength,
    PeerEncryptionKeyLength,
    KeyExpansion,
    TooLong,
    UnsupportedVersion,
    UnsupportedTokenType,
    AccountIdMismatch,
    CoverSenderMismatch,
    ConfirmSenderMismatch,
    AddressedToAnotherAccount,
    ConfirmAddressedToAnotherAccount,
    PacketAddressedToAnotherAccount,
    UnsupportedTransportVersion(u8),
    UnknownPacketType,
    SelfContact,
    PublicKeyNotFound(Seq<char>),
    EncryptionKeyNotFound(Seq<char>),
    ChatNotFound,
    MessageNotFound,
    MessageAlreadyExists(Seq<char>),
    NotOutgoing,
    ConfirmPeerMismatch,
    MessageNotUpdated,
    NotDelivered,
}

impl View for SkyError {
    type V = Refusal;

    open spec fn view(&self) -> Refusal {
        match self {
            SkyError::InvalidBase64(m) => Refusal::InvalidBase64(m@),
            SkyError::PrivateKeyLength => Refusal::PrivateKeyLength,
            SkyError::SigningKeyLength => Refusal::SigningKeyLength,
            SkyError::PublicKeyLength => Refusal::PublicKeyLength,
            SkyError::InvalidPublicKey(m) => Refusal::InvalidPublicKey(m@),
            SkyError::SignatureLength => Refusal::SignatureLength,
            SkyError::InviteSignatureLength => Refusal::InviteSignatureLength,
            SkyError::SignatureRejected(m) => Refusal::SignatureRejected(m@),
            SkyError::InviteSignatureRejected(m) => Refusal::InviteSignatureRejected(m@),
            SkyError::KeyPairMismatch => Refusal::KeyPairMismatch,
            SkyError::EncryptionKeyLength => Refusal::EncryptionKeyLength,
            SkyError::PeerEncryptionKeyLength => Refusal::PeerEncryptionKeyLength,
            SkyError::KeyExpansion => Refusal::KeyExpansion,
            SkyError::TooLong => Refusal::TooLong,
            SkyError::UnsupportedVersion => Refusal::UnsupportedVersion,
            SkyError::UnsupportedTokenType => Refusal::UnsupportedTokenType,
            SkyError::AccountIdMismatch => Refusal::AccountIdMismatch,
            SkyError::CoverSenderMismatch => Refusal::CoverSenderMismatch,
            SkyError::ConfirmSenderMismatch => Refusal::ConfirmSenderMismatch,
            SkyError::AddressedToAnotherAccount => Refusal::AddressedToAnotherAccount,
            SkyError::ConfirmAddressedToAnotherAccount => Refusal::ConfirmAddressedToAnotherAccount,
            SkyError::PacketAddressedToAnotherAccount => Refusal::PacketAddressedToAnotherAccount,
            SkyError::UnsupportedTransportVersion(v) => Refusal::UnsupportedTransportVersion(*v),
            SkyError::UnknownPacketType => Refusal::UnknownPacketType,
            SkyError::SelfContact => Refusal::SelfContact,
            SkyError::PublicKeyNotFound(p) => Refusal::PublicKeyNotFound(p@),
            SkyError::EncryptionKeyNotFound(p) => Refusal::EncryptionKeyNotFound(p@),
            SkyError::ChatNotFound => Refusal::ChatNotFound,
            SkyError::MessageNotFound => Refusal::MessageNotFound,
            SkyError::MessageAlreadyExists(id) => Refusal::MessageAlreadyExists(id@),
            SkyError::NotOutgoing => Refusal::NotOutgoing,
            SkyError::ConfirmPeerMismatch => Refusal::ConfirmPeerMismatch,
            SkyError::MessageNotUpdated => Refusal::MessageNotUpdated,
            SkyError::NotDelivered => Refusal::NotDelivered,
        }
    }
}

/// The text that the row lookups give where no row is found.
pub open spec fn no_rows_text() -> Seq<char> {
    "no rows returned by a query that expected to return at least one row"@
}

/// The human readable text of a refusal.
pub open spec fn refusal_text(r: Refusal) -> Seq<char> {
    match r {
        Refusal::InvalidBase64(m) => m,
        Refusal::PrivateKeyLength => "private key length is incorrect"@,
        Refusal::SigningKeyLength => "private key lenght is incorrect"@,
        Refusal::PublicKeyLength => "public key lenght is incorrect!"@,
        Refusal::InvalidPublicKey(m) => m,
        Refusal::SignatureLength => "signature lenght is incorrect"@,
        Refusal::InviteSignatureLength => "Lenght line is incorrect!"@,
        Refusal::SignatureRejected(m) => "signature verification is failed: "@ + m,
        Refusal::InviteSignatureRejected(m) => m,
        Refusal::KeyPairMismatch => "private key does not match to public key!"@,
        Refusal::EncryptionKeyLength => "encryption private key length is incorrect!"@,
        Refusal::PeerEncryptionKeyLength => "peer encryption public key length is incorrect!"@,
        Refusal::KeyExpansion => "expanding is failed!"@,
        Refusal::TooLong => "record is too long to encode"@,
        Refusal::UnsupportedVersion => "unsupported version!"@,
        Refusal::UnsupportedTokenType => "unsupported token type!"@,
        Refusal::AccountIdMismatch => "account_id is incorrect!"@,
        Refusal::CoverSenderMismatch => "sender id doesn't match with expected id"@,
        Refusal::ConfirmSenderMismatch => "sender id doesn't match with "@,
        Refusal::AddressedToAnotherAccount => "message is addressed to another account!"@,
        Refusal::ConfirmAddressedToAnotherAccount => "Confirm message is addressed to another account!"@,
        Refusal::PacketAddressedToAnotherAccount => "transport packet is addressed to another account!"@,
        Refusal::UnsupportedTransportVersion(v) => "unsupported transport version: "@ + decimal_text(v),
        Refusal::UnknownPacketType => "unknown packet type"@,
        Refusal::SelfContact => "you cannot add yourself!"@,
        Refusal::PublicKeyNotFound(p) => "Contact public key not found for peer: "@ + p,
        Refusal::EncryptionKeyNotFound(p) => "Contact encryption public key not found for peer: "@ + p,
        Refusal::ChatNotFound => no_rows_text(),
        Refusal::MessageNotFound => no_rows_text(),
        Refusal::MessageAlreadyExists(id) => "message already exists: "@ + id,
        Refusal::NotOutgoing => "This message is not outgoing!"@,
        Refusal::ConfirmPeerMismatch => "sender id is doesn't match"@,
        Refusal::MessageNotUpdated => "message is not updated!"@,
        Refusal::NotDelivered => "message is not delivered!"@,
    }
}

fn joined(head: &str, tail: &str) -> (text: String)
    ensures
        text@ == head@ + tail@,
{
    let mut text = String::from_str(head);
    text.append(tail);
    text
}

impl SkyError {
    /// The human readable text of the error.
    pub fn message(&self) -> (text: String)
        ensures
            text@ == refusal_text(self@),
    {
        match self {
            SkyError::InvalidBase64(m) => m.clone(),
            SkyError::PrivateKeyLength => String::from_str("private key length is incorrect"),
            SkyError::SigningKeyLength => String::from_str("private key lenght is incorrect"),
            SkyError::PublicKeyLength => String::from_str("public key lenght is incorrect!"),
            SkyError::InvalidPublicKey(m) => m.clone(),
            SkyError::SignatureLength => String::from_str("signature lenght is incorrect"),
            SkyError::InviteSignatureLength => String::from_str("Lenght line is incorrect!"),
            SkyError::SignatureRejected(m) => joined("signature verification is failed: ", m.as_str()),
            SkyError::InviteSignatureRejected(m) => m.clone(),
            SkyError::KeyPairMismatch => String::from_str("private key does not match to public key!"),
            SkyError::EncryptionKeyLength => String::from_str("encryption private key length is incorrect!"),
            SkyError::PeerEncryptionKeyLength => String::from_str("peer encryption public key length is incorrect!"),
            SkyError::KeyExpansion => String::from_str("expanding is failed!"),
            SkyError::TooLong => String::from_str("record is too long to encode"),
            SkyError::UnsupportedVersion => String::from_str("unsupported version!"),
            SkyError::UnsupportedTokenType => String::from_str("unsupported token type!"),
            SkyError::AccountIdMismatch => String::from_str("account_id is incorrect!"),
            SkyError::CoverSenderMismatch => String::from_str("sender id doesn't match with expected id"),
            SkyError::ConfirmSenderMismatch => String::from_str("sender id doesn't match with "),
            SkyError::AddressedToAnotherAccount => String::from_str("message is addressed to another account!"),
            SkyError::ConfirmAddressedToAnotherAccount => String::from_str("Confirm message is addressed to another account!"),
            SkyError::PacketAddressedToAnotherAccount => String::from_str("transport packet is addressed to another account!"),
            SkyError::UnsupportedTransportVersion(v) => {
                let digits = decimal(*v);
                joined("unsupported transport version: ", digits.as_str())
            },
            SkyError::UnknownPacketType => String::from_str("unknown packet type"),
            SkyError::SelfContact => String::from_str("you cannot add yourself!"),
            SkyError::PublicKeyNotFound(p) => joined("Contact public key not found for peer: ", p.as_str()),
            SkyError::EncryptionKeyNotFound(p) => joined("Contact encryption public key not found for peer: ", p.as_str()),
            SkyError::ChatNotFound => String::from_str("no rows returned by a query that expected to return at least one row"),
            SkyError::MessageNotFound => String::from_str("no rows returned by a query that expected to return at least one row"),
            SkyError::MessageAlreadyExists(id) => joined("message already exists: ", id.as_str()),
            SkyError::NotOutgoing => String::from_str("This message is not outgoing!"),
            SkyError::ConfirmPeerMismatch => String::from_str("sender id is doesn't match"),
            SkyError::MessageNotUpdated => String::from_str("message is not updated!"),
            SkyError::NotDelivered => String::from_str("message is not delivered!"),
        }
    }
}

} // verus!
