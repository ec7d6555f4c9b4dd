//! What the relay does with each packet, node record and outbound message.
use vstd::prelude::*;
use crate::radio::packet_metadata::{MeshPacketInfo, PacketMetadata};
use crate::relay::outbound_message::OutboundMessage;
use crate::relay::subjects::{extract_packet_timestamp, mesh_packet_subject, packet_subject, TEXT_MESSAGE_SUBJECT};
use crate::bot::text_payload;
use crate::utils::text::{hex_digits, push_hex_digits};

verus! {

/// What happens to a mesh packet once it is serialized.
#[derive(Debug, Clone, Copy, PartialEq, Eq, Structural)]
pub enum PacketAction {
    /// The packet is published, with the packet's own timestamp if it has one.
    Publish { packet_timestamp: Option<u32> },
    /// No NATS connection: nothing is done.
    Skip,
}

/// The subject of a mesh packet and what happens to it.
#[derive(Debug)]
pub struct MeshPacketPlan {
    pub subject: String,
    pub action: PacketAction,
}

/// What the relay does with a mesh packet from the radio (RX path: radio
/// → NATS): publish it on its subject whenever there is a NATS connection.
/// Read-only mode only holds back transmission to the radio, so it plays
/// no part here.
pub open spec fn packet_action(mesh_packet: MeshPacketInfo, has_nats: bool) -> PacketAction {
    if has_nats {
        PacketAction::Publish {
            packet_timestamp: if mesh_packet.rx_time != 0 { Some(mesh_packet.rx_time) } else { None },
        }
    } else {
        PacketAction::Skip
    }
}

/// The relay's handling of a mesh packet from the radio (RX path: radio →
/// NATS): it is published on its subject when there is a NATS connection,
/// in read-only mode too.
pub fn plan_mesh_packet(mesh_packet: &MeshPacketInfo, has_nats: bool) -> (r: MeshPacketPlan)
    ensures
        r.subject@ == packet_subject(*mesh_packet),
        text_payload(*mesh_packet) is Some ==> r.subject@ == TEXT_MESSAGE_SUBJECT@,
        r.action == packet_action(*mesh_packet, has_nats),
{
    let subject = mesh_packet_subject(mesh_packet);
    let action = if has_nats {
        PacketAction::Publish { packet_timestamp: extract_packet_timestamp(mesh_packet) }
    } else {
        PacketAction::Skip
    };
    MeshPacketPlan { subject, action }
}

/// The key a node's record is stored under: its number in 8 lowercase hex
/// digits.
pub open spec fn node_key_text(num: u32) -> Seq<char> {
    hex_digits(num as nat, 8)
}

/// The key a node's record is stored under.
pub fn node_kv_key(num: u32) -> (r: String)
    ensures
        r@ == node_key_text(num),
{
    let mut key = String::new();
    push_hex_digits(&mut key, num as u64, 8);
    proof {
        assert(key@ =~= node_key_text(num));
    }
    key
}

/// What happens to a node record once it is serialized.
#[derive(Debug, Clone, Copy, PartialEq, Eq, Structural)]
pub enum StoreAction {
    /// The record is written to the store.
    Store,
    /// No store: nothing is done.
    Skip,
}

/// The key of a node record and what happens to it.
#[derive(Debug)]
pub struct NodeInfoPlan {
    pub key: String,
    pub action: StoreAction,
}

/// What the relay does with a node record (RX path: radio → NATS KV):
/// store it whenever there is a store. Read-only mode only holds back
/// transmission to the radio, so it plays no part here.
pub open spec fn store_action(has_store: bool) -> StoreAction {
    if has_store {
        StoreAction::Store
    } else {
        StoreAction::Skip
    }
}

/// The relay's handling of a node record from the radio (RX path: radio →
/// NATS KV): it is written under the node's key when there is a store, in
/// read-only mode too.
pub fn plan_node_info(node_num: u32, has_store: bool) -> (r: NodeInfoPlan)
    ensures
        r.key@ == node_key_text(node_num),
        r.action == store_action(has_store),
{
    let key = node_kv_key(node_num);
    let action = if has_store {
        StoreAction::Store
    } else {
        StoreAction::Skip
    };
    NodeInfoPlan { key, action }
}

/// The relay's handling of its own node record at startup: stored under
/// the key `self` when there is a store, in read-only mode too.
pub fn plan_my_node_info(has_store: bool) -> (r: StoreAction)
    ensures
        r == store_action(has_store),
{
    if has_store {
        StoreAction::Store
    } else {
        StoreAction::Skip
    }
}

/// The routing metadata of an outbound message sent by the node
/// `my_node_num`: from that node, to the message's recipient, on its
/// channel, a DM when the message says so.
pub open spec fn outbound_coords(outbound: OutboundMessage, my_node_num: u32) -> PacketMetadata {
    PacketMetadata {
        from_id: my_node_num,
        to_id: outbound.to,
        message_id: None,
        channel_index: outbound.channel as u32,
        is_dm: outbound.is_dm,
        hops_traveled: 0,
    }
}

/// The routing metadata of an outbound message sent by the node
/// `my_node_num` (TX path: NATS → radio).
pub fn outbound_metadata(outbound: &OutboundMessage, my_node_num: u32) -> (r: PacketMetadata)
    ensures
        r == outbound_coords(*outbound, my_node_num),
{
    PacketMetadata {
        from_id: my_node_num,
        to_id: outbound.to,
        message_id: None,  // Not relevant for TX
        channel_index: outbound.channel as u32,
        is_dm: outbound.is_dm,
        hops_traveled: 0,
    }
}

} // verus!
