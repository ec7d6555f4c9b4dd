use mesh_jawn::radio::client::{plan_send, Destination, SendAction};
use mesh_jawn::radio::packet_metadata::{MeshPacketInfo, PacketMetadata, PacketPayload};
use mesh_jawn::relay::handlers::{
    outbound_metadata, plan_mesh_packet, plan_my_node_info, plan_node_info, PacketAction, StoreAction,
};
use mesh_jawn::relay::nats_setup::{relay_headers, relay_headers_at};
use mesh_jawn::relay::subjects::{extract_packet_timestamp, mesh_packet_subject, portnum_to_subject};
use mesh_jawn::relay::{relay_step, OutboundMessage, RadioEvent, RelayAction};
use mesh_jawn::utils::logging::{logging_settings, LogFormat};
use mesh_jawn::utils::text::{decimal_string, str_less};

fn packet(payload: PacketPayload, rx_time: u32) -> MeshPacketInfo {
    MeshPacketInfo { from: 1, to: 2, channel: 0, id: 3, rx_time, hop_limit: 3, hop_start: 1, payload }
}

#[test]
fn port_subjects() {
    assert_eq!(portnum_to_subject(1), "TextMessageApp");
    assert_eq!(portnum_to_subject(3), "PositionApp");
    assert_eq!(portnum_to_subject(4), "NodeinfoApp");
    assert_eq!(portnum_to_subject(0), "UnknownApp");
    assert_eq!(portnum_to_subject(9999), "UNKNOWN_APP");
}

#[test]
fn packet_subjects() {
    let text = packet(PacketPayload::Decoded { portnum: 1, payload: vec![] }, 0);
    assert_eq!(mesh_packet_subject(&text), "cbmesh.packet.TextMessageApp");
    let odd = packet(PacketPayload::Decoded { portnum: -5, payload: vec![] }, 0);
    assert_eq!(mesh_packet_subject(&odd), "cbmesh.packet.UNKNOWN_APP");
    assert_eq!(mesh_packet_subject(&packet(PacketPayload::Encrypted, 0)), "cbmesh.packet.ENCRYPTED");
    assert_eq!(mesh_packet_subject(&packet(PacketPayload::Missing, 0)), "cbmesh.packet.UNKNOWN");
}

#[test]
fn packet_timestamps() {
    assert_eq!(extract_packet_timestamp(&packet(PacketPayload::Missing, 0)), None);
    assert_eq!(extract_packet_timestamp(&packet(PacketPayload::Missing, 1730649600)), Some(1730649600));
}

#[test]
fn hops_saturate() {
    let p = packet(PacketPayload::Missing, 0);
    let c = PacketMetadata::from_packet(&p, 2);
    assert_eq!(c.hops_traveled, 0);
    assert!(c.is_dm);
    assert_eq!(c.message_id, Some(3));
    assert_eq!(c.from_id_hex(), "!00000001");
    assert_eq!(c.to_id_hex(), "!00000002");
}

#[test]
fn mesh_packet_plans() {
    let p = packet(PacketPayload::Decoded { portnum: 4, payload: vec![] }, 17);
    let plan = plan_mesh_packet(&p, true);
    assert_eq!(plan.subject, "cbmesh.packet.NodeinfoApp");
    assert_eq!(plan.action, PacketAction::Publish { packet_timestamp: Some(17) });
    assert_eq!(plan_mesh_packet(&p, false).action, PacketAction::Skip);
}

#[test]
fn node_info_plans() {
    let plan = plan_node_info(0xdeadbeef, true);
    assert_eq!(plan.key, "deadbeef");
    assert_eq!(plan.action, StoreAction::Store);
    assert_eq!(plan_node_info(1, false).action, StoreAction::Skip);
    assert_eq!(plan_my_node_info(true), StoreAction::Store);
    assert_eq!(plan_my_node_info(false), StoreAction::Skip);
}

#[test]
fn headers() {
    let h = relay_headers_at(1730649600, 0x12345678, Some(1730649595));
    let pairs: Vec<(String, String)> = h.into_iter().map(|h| (h.name, h.value)).collect();
    assert_eq!(
        pairs,
        vec![
            ("publish_timestamp".to_string(), "1730649600".to_string()),
            ("relay_node_id".to_string(), "!12345678".to_string()),
            ("packet_timestamp".to_string(), "1730649595".to_string()),
        ]
    );
    let h = relay_headers(0x12345678, None);
    assert_eq!(h.len(), 2);
    assert_eq!(h[1].value, "!12345678");
    assert!(h[0].value.parse::<u64>().unwrap() > 1_600_000_000);
}

#[test]
fn outbound_send_plans() {
    let out = OutboundMessage { to: 305419896, channel: 3, text: "Hello from NATS!".to_string(), is_dm: true };
    let c = outbound_metadata(&out, 9);
    assert_eq!(c.from_id, 9);
    assert_eq!(c.to_id, 305419896);
    assert_eq!(c.channel_index, 3);
    assert_eq!(c.message_id, None);
    let plan = plan_send(&out.text, &c, false);
    assert_eq!(plan.text, "Hello from NATS!");
    assert_eq!(plan.action, SendAction::Transmit { destination: Destination::Node(305419896), channel: 3 });
    assert_eq!(plan_send(&out.text, &c, true).action, SendAction::DryRun);
    let mut b = c;
    b.is_dm = false;
    let long = "y".repeat(500);
    let plan = plan_send(&long, &b, false);
    assert_eq!(plan.action, SendAction::Transmit { destination: Destination::Broadcast, channel: 3 });
    assert_eq!(plan.text.len(), 200);
}

#[test]
fn relay_steps() {
    let p = packet(PacketPayload::Encrypted, 0);
    match relay_step(&RadioEvent::Packet(p), true) {
        RelayAction::Packet(plan) => {
            assert_eq!(plan.subject, "cbmesh.packet.ENCRYPTED");
            assert_eq!(plan.action, PacketAction::Publish { packet_timestamp: None });
        }
        other => panic!("unexpected {:?}", other),
    }
    match relay_step(&RadioEvent::NodeInfo { num: 10 }, false) {
        RelayAction::NodeInfo(plan) => {
            assert_eq!(plan.key, "0000000a");
            assert_eq!(plan.action, StoreAction::Skip);
        }
        other => panic!("unexpected {:?}", other),
    }
    assert!(matches!(relay_step(&RadioEvent::MyInfo { my_node_num: 5 }, true), RelayAction::WarnMyInfo { my_node_num: 5 }));
    assert!(matches!(relay_step(&RadioEvent::Other, true), RelayAction::Ignore));
    assert!(matches!(relay_step(&RadioEvent::Empty, true), RelayAction::Ignore));
    assert!(matches!(relay_step(&RadioEvent::Disconnected, true), RelayAction::FatalDisconnect));
}

#[test]
fn log_settings() {
    let s = logging_settings(true, Some(LogFormat::Json), true);
    assert!(s.use_json);
    assert_eq!(s.default_filter, "debug,meshtastic=info");
    let s = logging_settings(false, Some(LogFormat::Console), true);
    assert!(!s.use_json);
    assert_eq!(s.default_filter, "info,meshtastic=info");
    assert!(logging_settings(false, None, false).use_json);
    assert!(!logging_settings(false, None, true).use_json);
}

#[test]
fn text_helpers() {
    assert_eq!(decimal_string(0), "0");
    assert_eq!(decimal_string(1234567890123), "1234567890123");
    assert_eq!(decimal_string(u64::MAX), u64::MAX.to_string());
    assert!(str_less("help", "info"));
    assert!(str_less("welcome", "whoami"));
    assert!(!str_less("ping", "ping"));
    assert!(str_less("", "a"));
    assert!(!str_less("ab", "a"));
}
