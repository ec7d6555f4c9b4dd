use mesh_jawn::bot::bot_setup::{is_node_key, load_node_entry, node_record_from_json, read_my_node_num, SetupError};
use mesh_jawn::bot::commands::Command;
use meshtastic::protobufs::mesh_packet::PayloadVariant;
use mesh_jawn::bot::node_tracker::{NodeRecord, NodeTracker, ONLINE_THRESHOLD_SECS};
use mesh_jawn::bot::replies::CommandResponse;
use mesh_jawn::bot::{bot_step, extract_text_from_packet, parse_command, plan_replies, receive_packet, BotDecision, ReceivedPacket};
use mesh_jawn::radio::packet_metadata::{MeshPacketInfo, PacketMetadata, PacketPayload};
use mesh_jawn::relay::handlers::{node_kv_key, plan_mesh_packet};
use mesh_jawn::relay::subjects::{mesh_packet_subject, TEXT_MESSAGE_SUBJECT};

fn packet(to: u32, portnum: i32, payload: &[u8]) -> MeshPacketInfo {
    MeshPacketInfo {
        from: 0x0a0b0c0d,
        to,
        channel: 2,
        id: 99,
        rx_time: 0,
        hop_limit: 1,
        hop_start: 3,
        payload: PacketPayload::Decoded { portnum, payload: payload.to_vec() },
    }
}

fn dm_coords() -> PacketMetadata {
    PacketMetadata::from_packet(&packet(7, 1, b""), 7)
}

#[test]
fn text_is_extracted_from_text_messages_only() {
    assert_eq!(extract_text_from_packet(&packet(7, 1, "héllo".as_bytes())), Some("héllo".to_string()));
    assert_eq!(extract_text_from_packet(&packet(7, 3, b"hello")), None);
    assert_eq!(extract_text_from_packet(&packet(7, 1, &[0xff, 0xfe])), None);
    let mut encrypted = packet(7, 1, b"x");
    encrypted.payload = PacketPayload::Encrypted;
    assert_eq!(extract_text_from_packet(&encrypted), None);
}

#[test]
fn bot_handles_only_dms_with_text() {
    assert!(matches!(bot_step(&packet(8, 1, b".ping"), 7), BotDecision::SkipNotDm));
    assert!(matches!(bot_step(&packet(7, 4, b".ping"), 7), BotDecision::SkipNoText));
    match bot_step(&packet(7, 1, b".ping"), 7) {
        BotDecision::Handle { coords, text } => {
            assert_eq!(text, ".ping");
            assert_eq!(coords.from_id, 0x0a0b0c0d);
            assert!(coords.is_dm);
            assert_eq!(coords.hops_traveled, 2);
            assert_eq!(coords.channel_index, 2);
        }
        _ => panic!("a DM with text is handled"),
    }
}

#[test]
fn commands_are_parsed_case_insensitively() {
    let c = dm_coords();
    let inv = parse_command(&c, ".HELP me please").unwrap();
    assert_eq!(inv.metadata.command, Command::Help);
    assert_eq!(inv.argument, "me please");
    let inv = parse_command(&c, ".PiNg").unwrap();
    assert_eq!(inv.metadata.command, Command::Ping);
    assert_eq!(inv.argument, "");
    let inv = parse_command(&c, ".status").unwrap();
    assert_eq!(inv.metadata.command, Command::Info);
}

#[test]
fn surrounding_white_space_is_ignored() {
    let c = dm_coords();
    let inv = parse_command(&c, " .ping ").unwrap();
    assert_eq!(inv.metadata.command, Command::Ping);
    assert_eq!(inv.argument, "");
    let inv = parse_command(&c, "\t .help  me \n").unwrap();
    assert_eq!(inv.metadata.command, Command::Help);
    assert_eq!(inv.argument, " me");
    let inv = parse_command(&c, "\u{3000}.whoami\u{a0}").unwrap();
    assert_eq!(inv.metadata.command, Command::Whoami);
}

#[test]
fn non_commands_are_ignored() {
    let c = dm_coords();
    assert!(parse_command(&c, "help").is_none());
    assert!(parse_command(&c, "").is_none());
    assert!(parse_command(&c, "   ").is_none());
    assert!(parse_command(&c, ".").is_none());
    assert!(parse_command(&c, ".nope arg").is_none());
    let mut broadcast = c;
    broadcast.is_dm = false;
    assert!(parse_command(&broadcast, ".help").is_none());
}

#[test]
fn replies_go_back_to_sender_truncated() {
    let c = dm_coords();
    let response = CommandResponse::new_multi(vec!["short".to_string(), "x".repeat(300)]);
    let out = plan_replies(&c, &response);
    assert_eq!(out.len(), 2);
    assert_eq!(out[0].to, 0x0a0b0c0d);
    assert_eq!(out[0].channel, 2);
    assert!(out[0].is_dm);
    assert_eq!(out[0].text, "short");
    assert_eq!(out[1].text.len(), 200);
    assert!(out[1].text.ends_with("... (truncated)"));
}

#[test]
fn reply_channel_keeps_low_byte() {
    let mut c = dm_coords();
    c.channel_index = 0x105;
    let out = plan_replies(&c, &CommandResponse::new("hi"));
    assert_eq!(out[0].channel, 5);
}

#[test]
fn node_keys() {
    assert!(is_node_key("deadbeef"));
    assert!(is_node_key("DEADBEEF"));
    assert!(is_node_key("0000000a"));
    assert!(!is_node_key("self"));
    assert!(!is_node_key("1234567"));
    assert!(!is_node_key("123456789"));
    assert!(!is_node_key("1234567g"));
    assert!(!is_node_key("éééé"));
    assert!(is_node_key(&node_kv_key(0x12ab34cd)));
    assert_eq!(node_kv_key(0x12ab34cd), "12ab34cd");
    assert_eq!(node_kv_key(1), "00000001");
}

fn node(num: u32, last_heard: u32) -> NodeRecord {
    NodeRecord { num, last_heard, long_name: format!("node {}", num) }
}

#[test]
fn tracker_counts_nodes() {
    let mut t = NodeTracker::default();
    assert_eq!(t.total_nodes(), 0);
    assert_eq!(t.my_node_num(), None);
    t.set_my_node_num(77);
    assert_eq!(t.my_node_num(), Some(77));
    let now: u32 = 1_000_000;
    t.update_node(node(1, now - 10));
    t.update_node(node(2, now - ONLINE_THRESHOLD_SECS));
    t.update_node(node(3, now - ONLINE_THRESHOLD_SECS - 1));
    t.update_node(node(4, 0));
    t.update_node(node(5, now + 100));
    assert_eq!(t.total_nodes(), 5);
    assert_eq!(t.online_nodes_at(now), 3);
    t.update_node(node(3, now));
    assert_eq!(t.total_nodes(), 5);
    assert_eq!(t.online_nodes_at(now), 4);
    let n3 = t.get_node(3).unwrap();
    assert_eq!((n3.num, n3.last_heard, n3.long_name.as_str()), (3, now, "node 3"));
    assert!(t.get_node(9).is_none());
    let mut nums: Vec<u32> = t.all_nodes().iter().map(|n| n.num).collect();
    nums.sort();
    assert_eq!(nums, vec![1, 2, 3, 4, 5]);
    assert!(t.online_nodes() <= t.total_nodes());
}

#[test]
fn own_node_number_from_the_self_entry() {
    let info = meshtastic::protobufs::MyNodeInfo { my_node_num: 0x1234abcd, ..Default::default() };
    let json = serde_json::to_vec(&info).unwrap();
    assert_eq!(read_my_node_num(Some(&json)), Ok(0x1234abcd));
    assert_eq!(read_my_node_num(None), Err(SetupError::SelfMissing));
    assert_eq!(read_my_node_num(Some(b"not json")), Err(SetupError::SelfUnreadable));
}

fn node_info_json(num: u32, last_heard: u32, long_name: Option<&str>) -> Vec<u8> {
    let user = long_name.map(|n| meshtastic::protobufs::User { long_name: n.to_string(), ..Default::default() });
    let info = meshtastic::protobufs::NodeInfo { num, last_heard, user, ..Default::default() };
    serde_json::to_vec(&info).unwrap()
}

#[test]
fn node_entries_load_into_the_tracker() {
    let mut t = NodeTracker::new();
    let named = node_info_json(0x12ab34cd, 99, Some("Alice"));
    assert!(load_node_entry(&mut t, "12ab34cd", Some(&named)));
    let n = t.get_node(0x12ab34cd).unwrap();
    assert_eq!((n.num, n.last_heard, n.long_name.as_str()), (0x12ab34cd, 99, "Alice"));
    let unnamed = node_info_json(7, 1, None);
    assert!(load_node_entry(&mut t, "00000007", Some(&unnamed)));
    assert_eq!(t.get_node(7).unwrap().long_name, "");
    assert_eq!(t.total_nodes(), 2);
    assert!(!load_node_entry(&mut t, "self", Some(&named)));
    assert!(!load_node_entry(&mut t, "00000008", None));
    assert!(!load_node_entry(&mut t, "00000008", Some(b"{")));
    assert_eq!(t.total_nodes(), 2);
    let r = node_record_from_json(&named).unwrap();
    assert_eq!((r.num, r.long_name.as_str()), (0x12ab34cd, "Alice"));
    assert!(node_record_from_json(b"[]").is_none());
}

#[test]
fn stream_messages_are_read_and_decided() {
    let data = meshtastic::protobufs::Data { portnum: 1, payload: b".ping".to_vec(), ..Default::default() };
    let p = meshtastic::protobufs::MeshPacket {
        from: 0x0a0b0c0d,
        to: 42,
        id: 9,
        rx_snr: 9.5,
        hop_start: 3,
        hop_limit: 1,
        payload_variant: Some(PayloadVariant::Decoded(data)),
        ..Default::default()
    };
    let json = serde_json::to_vec(&p).unwrap();
    match receive_packet(&json, 42) {
        ReceivedPacket::Read { decision: BotDecision::Handle { coords, text }, snr_bits } => {
            assert_eq!(text, ".ping");
            assert_eq!(coords.from_id, 0x0a0b0c0d);
            assert_eq!(coords.hops_traveled, 2);
            assert_eq!(snr_bits, 9.5f32.to_bits());
        }
        other => panic!("unexpected {:?}", other),
    }
    assert!(matches!(
        receive_packet(&json, 43),
        ReceivedPacket::Read { decision: BotDecision::SkipNotDm, .. }
    ));
    assert!(matches!(receive_packet(b"garbage", 42), ReceivedPacket::Unreadable));
}

#[test]
fn text_packets_are_published_where_the_bot_reads() {
    let p = packet(42, 1, b"hi");
    assert_eq!(mesh_packet_subject(&p), TEXT_MESSAGE_SUBJECT);
    assert_eq!(plan_mesh_packet(&p, true).subject, TEXT_MESSAGE_SUBJECT);
}
