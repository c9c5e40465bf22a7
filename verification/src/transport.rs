//! Transport packets: what the relay carries, and where a received packet goes.

use vstd::prelude::*;

use crate::error::{Refusal, SkyError};
use crate::identity::Account;
use crate::json::{byte_field, push_byte_field, push_text_field, text_field};

verus! {

/// A packet as the relay carries it.
#[derive(Debug, Clone, PartialEq, Eq)]
pub struct TransportPacket {
    pub version: u8,
    pub packet_id: String,
    pub receiver_account_id: String,
    pub packet_type: String,
    pub payload: String,
}

/// The JSON text of a packet.
pub open spec fn packet_json(p: TransportPacket) -> Seq<char> {
    byte_field("{\"version\":"@, p.version) + text_field(",\"packet_id\":"@, p.packet_id@)
        + text_field(",\"receiver_account_id\":"@, p.receiver_account_id@) + text_field(
        ",\"packet_type\":"@,
        p.packet_type@,
    ) + text_field(",\"payload\":"@, p.payload@) + "}"@
}

/// Encodes a packet as JSON text. It never fails.
pub fn encode_transport_packet(packet: &TransportPacket) -> (encoded: Result<String, SkyError>)
    ensures
        encoded is Ok,
        encoded.unwrap()@ == packet_json(*packet),
{
    let mut json = String::new();
    push_byte_field(&mut json, "{\"version\":", packet.version);
    push_text_field(&mut json, ",\"packet_id\":", packet.packet_id.as_str());
    push_text_field(&mut json, ",\"receiver_account_id\":", packet.receiver_account_id.as_str());
    push_text_field(&mut json, ",\"packet_type\":", packet.packet_type.as_str());
    push_text_field(&mut json, ",\"payload\":", packet.payload.as_str());
    json.append("}");
    assert(json@ =~= packet_json(*packet));
    Ok(json)
}

/// Where a received packet goes.
#[derive(Debug, Clone, Copy, PartialEq, Eq, Structural)]
pub enum PacketRoute {
    /// The payload is a signed cover: a message from a peer.
    Message,
    /// The payload is a signed delivery confirmation.
    DeliveryConfirm,
}

/// Where a packet received by `account` goes: it must be addressed to the
/// account and of version 1; its type `message` or `DeliveryMessage` decides
/// the route, any other type is refused.
pub open spec fn packet_route(account: Account, packet: TransportPacket) -> Result<PacketRoute, Refusal> {
    if packet.receiver_account_id@ != account.account_id@ {
        Err(Refusal::PacketAddressedToAnotherAccount)
    } else if packet.version != 1 {
        Err(Refusal::UnsupportedTransportVersion(packet.version))
    } else if packet.packet_type@ == "message"@ {
        Ok(PacketRoute::Message)
    } else if packet.packet_type@ == "DeliveryMessage"@ {
        Ok(PacketRoute::DeliveryConfirm)
    } else {
        Err(Refusal::UnknownPacketType)
    }
}

/// The view of a route decision.
pub open spec fn route_result(r: Result<PacketRoute, SkyError>) -> Result<PacketRoute, Refusal> {
    match r {
        Ok(route) => Ok(route),
        Err(e) => Err(e@),
    }
}

/// Decides where a packet received by `account` goes.
pub fn transporting_packet(account: &Account, packet: &TransportPacket) -> (route: Result<PacketRoute, SkyError>)
    ensures
        route_result(route) == packet_route(*account, *packet),
{
    if !(packet.receiver_account_id == account.account_id) {
        return Err(SkyError::PacketAddressedToAnotherAccount);
    }
    if packet.version != 1 {
        return Err(SkyError::UnsupportedTransportVersion(packet.version));
    }
    let message = String::from_str("message");
    let delivery = String::from_str("DeliveryMessage");
    if packet.packet_type == message {
        Ok(PacketRoute::Message)
    } else if packet.packet_type == delivery {
        Ok(PacketRoute::DeliveryConfirm)
    } else {
        Err(SkyError::UnknownPacketType)
    }
}

} // verus!
