use sky_core::error::SkyError;
use sky_core::identity::account_from_secrets;
use sky_core::transport::{encode_transport_packet, transporting_packet, PacketRoute, TransportPacket};

fn packet(receiver: &str, version: u8, kind: &str) -> TransportPacket {
    TransportPacket {
        version,
        packet_id: "p1".to_string(),
        receiver_account_id: receiver.to_string(),
        packet_type: kind.to_string(),
        payload: "abc".to_string(),
    }
}

#[test]
fn packet_json() {
    assert_eq!(
        encode_transport_packet(&packet("r", 1, "message")).unwrap(),
        "{\"version\":1,\"packet_id\":\"p1\",\"receiver_account_id\":\"r\",\"packet_type\":\"message\",\"payload\":\"abc\"}"
    );
}

#[test]
fn packets_are_routed_by_type() {
    let a = account_from_secrets([1u8; 32], [2u8; 32]);
    let me = a.account_id.as_str();
    assert_eq!(transporting_packet(&a, &packet(me, 1, "message")), Ok(PacketRoute::Message));
    assert_eq!(
        transporting_packet(&a, &packet(me, 1, "DeliveryMessage")),
        Ok(PacketRoute::DeliveryConfirm)
    );
    assert_eq!(
        transporting_packet(&a, &packet(me, 1, "other")),
        Err(SkyError::UnknownPacketType)
    );
    let version = transporting_packet(&a, &packet(me, 2, "message"));
    assert_eq!(version, Err(SkyError::UnsupportedTransportVersion(2)));
    assert_eq!(version.unwrap_err().message(), "unsupported transport version: 2");
    assert_eq!(
        SkyError::UnsupportedTransportVersion(255).message(),
        "unsupported transport version: 255"
    );
    assert_eq!(SkyError::UnknownPacketType.message(), "unknown packet type");
    assert_eq!(
        SkyError::PacketAddressedToAnotherAccount.message(),
        "transport packet is addressed to another account!"
    );
    assert_eq!(
        transporting_packet(&a, &packet("someone", 1, "message")),
        Err(SkyError::PacketAddressedToAnotherAccount)
    );
}
