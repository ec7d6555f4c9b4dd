//! Routing metadata of a mesh packet.
use vstd::prelude::*;
use crate::utils::text::{hex_digits, push_char, push_hex_digits};

verus! {

/// The payload of a mesh packet.
#[derive(Debug, Clone, PartialEq, Eq)]
pub enum PacketPayload {
    /// A decoded payload: the application port number and its bytes.
    Decoded { portnum: i32, payload: Vec<u8> },
    /// An encrypted payload.
    Encrypted,
    /// No payload.
    Missing,
}

/// The fields of a Meshtastic `MeshPacket` that routing reads.
#[derive(Debug, Clone)]
pub struct MeshPacketInfo {
    /// The sending node number.
    pub from: u32,
    /// The receiving node number (0xFFFFFFFF for broadcast).
    pub to: u32,
    /// The channel index.
    pub channel: u32,
    /// The packet id.
    pub id: u32,
    /// The receive time in seconds since the epoch, 0 when unset.
    pub rx_time: u32,
    /// The hops that remain.
    pub hop_limit: u32,
    /// The hop limit the packet started with.
    pub hop_start: u32,
    /// The payload.
    pub payload: PacketPayload,
}

/// Routing metadata of a packet: who sent it, to whom, on which channel,
/// and how far it traveled.
#[derive(Debug, Clone, Copy, PartialEq, Eq)]
pub struct PacketMetadata {
    pub from_id: u32,
    pub to_id: u32,
    pub message_id: Option<u32>,
    pub channel_index: u32,
    pub is_dm: bool,
    /// Number of hops this packet traveled (hop_start - hop_limit)
    pub hops_traveled: u32,
}

/// `hop_start - hop_limit`, or 0 when the limit exceeds the start.
pub open spec fn hops_traveled(hop_start: u32, hop_limit: u32) -> u32 {
    if hop_start >= hop_limit {
        (hop_start - hop_limit) as u32
    } else {
        0
    }
}

/// The metadata of `packet` as received by the node `my_node_num`.
pub open spec fn packet_coords(packet: MeshPacketInfo, my_node_num: u32) -> PacketMetadata {
    PacketMetadata {
        from_id: packet.from,
        to_id: packet.to,
        message_id: Some(packet.id),
        channel_index: packet.channel,
        is_dm: packet.to == my_node_num,
        hops_traveled: hops_traveled(packet.hop_start, packet.hop_limit),
    }
}

/// A node id as Meshtastic shows it: `!` and 8 lowercase hex digits.
pub open spec fn node_id_text(n: u32) -> Seq<char> {
    seq!['!'] + hex_digits(n as nat, 8)
}

/// `!` and the 8 hex digits of `n`.
pub fn node_id_string(n: u32) -> (r: String)
    ensures
        r@ == node_id_text(n),
{
    let mut s = String::new();
    push_char(&mut s, '!');
    push_hex_digits(&mut s, n as u64, 8);
    proof {
        assert(s@ =~= node_id_text(n));
    }
    s
}

/// The hops a packet traveled and the hops it has left add up to the hop
/// limit it started with; a packet that reports more hops left than it
/// started with traveled none. The routing metadata carries the sender,
/// the recipient and the channel of the packet, and it is a DM exactly
/// when the packet is addressed to the receiving node.
pub proof fn lemma_packet_coords(packet: MeshPacketInfo, my_node_num: u32)
    ensures
        packet.hop_start >= packet.hop_limit ==>
            packet_coords(packet, my_node_num).hops_traveled + packet.hop_limit == packet.hop_start,
        packet.hop_start < packet.hop_limit ==> packet_coords(packet, my_node_num).hops_traveled == 0,
        packet_coords(packet, my_node_num).from_id == packet.from,
        packet_coords(packet, my_node_num).to_id == packet.to,
        packet_coords(packet, my_node_num).channel_index == packet.channel,
        packet_coords(packet, my_node_num).is_dm <==> packet.to == my_node_num,
{
}

impl PacketMetadata {
    /// The metadata of a packet received by the node `my_node_num`: the
    /// packet is a DM when it is addressed to that node.
    pub fn from_packet(packet: &MeshPacketInfo, my_node_num: u32) -> (r: Self)
        ensures
            r == packet_coords(*packet, my_node_num),
            packet.hop_start >= packet.hop_limit ==> r.hops_traveled + packet.hop_limit == packet.hop_start,
            packet.hop_start < packet.hop_limit ==> r.hops_traveled == 0,
            r.from_id == packet.from && r.to_id == packet.to && r.channel_index == packet.channel,
            r.is_dm <==> packet.to == my_node_num,
    {
        let from_id = packet.from;
        let to_id = packet.to;
        let message_id = Some(packet.id);
        let channel_index = packet.channel;
        let is_dm = to_id == my_node_num;
        // hop_start is the initial hop limit, hop_limit is what remains
        let hops_traveled = packet.hop_start.saturating_sub(packet.hop_limit);

        Self { from_id, to_id, message_id, channel_index, is_dm, hops_traveled }
    }

    /// The sender's node id, `!xxxxxxxx`.
    pub fn from_id_hex(&self) -> (r: String)
        ensures
            r@ == node_id_text(self.from_id),
    {
        node_id_string(self.from_id)
    }

    /// The recipient's node id, `!xxxxxxxx`.
    pub fn to_id_hex(&self) -> (r: String)
        ensures
            r@ == node_id_text(self.to_id),
    {
        node_id_string(self.to_id)
    }
}

} // verus!
