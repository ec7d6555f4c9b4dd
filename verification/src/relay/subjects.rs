//! NATS subjects of mesh packets.
use vstd::prelude::*;
use crate::radio::packet_metadata::{MeshPacketInfo, PacketPayload};
use crate::bot::{text_message_port, text_payload};

verus! {

/// The JetStream stream that holds the mesh packets.
pub const STREAM_NAME: &'static str = "cbmesh";
/// How long the stream keeps a message, in seconds (30 days).
pub const STREAM_MAX_AGE_SECS: u64 = 30 * 24 * 60 * 60;
/// The subjects the stream takes in.
pub const STREAM_SUBJECTS: &'static str = "cbmesh.>";
/// The subject outbound messages are published on.
pub const OUTBOUND_SUBJECT: &'static str = "cbmesh.outbound";
/// The subject of text message packets, which the bot reads.
pub const TEXT_MESSAGE_SUBJECT: &'static str = "cbmesh.packet.TextMessageApp";
/// The name of Meshtastic's text message port.
pub const TEXT_MESSAGE_APP: &'static str = "TextMessageApp";
/// What the subject of every mesh packet starts with.
pub const PACKET_SUBJECT_PREFIX: &'static str = "cbmesh.packet.";
/// The last part of the subject of an unrecognized port number.
pub const UNKNOWN_APP: &'static str = "UNKNOWN_APP";
/// The subject of encrypted packets.
pub const ENCRYPTED_SUBJECT: &'static str = "cbmesh.packet.ENCRYPTED";
/// The subject of packets without a payload.
pub const UNKNOWN_SUBJECT: &'static str = "cbmesh.packet.UNKNOWN";

/// The name of the Meshtastic `PortNum` variant numbered `portnum`, as its
/// `Debug` form writes it (`TextMessageApp`, `NodeinfoApp`, ...), or none
/// when no variant has that number.
pub uninterp spec fn port_name(portnum: i32) -> Option<Seq<char>>;

/// `meshtastic::protobufs::PortNum::try_from` on the number, and the
/// variant's `Debug` text. The protobuf definitions number
/// `TextMessageApp` 1, so that is the name of port 1.
#[verifier::external_body]
fn port_debug_name(portnum: i32) -> (r: Option<String>)
    ensures
        r is Some <==> port_name(portnum) is Some,
        r matches Some(s) ==> port_name(portnum) == Some(s@),
        portnum == text_message_port() ==> r is Some && r.unwrap()@ == TEXT_MESSAGE_APP@,
{
    match meshtastic::protobufs::PortNum::try_from(portnum) {
        Ok(port) => Some(format!("{:?}", port)),
        Err(_) => None,
    }
}

/// The subject part for a port number: its name, or "UNKNOWN_APP".
pub open spec fn port_subject(portnum: i32) -> Seq<char> {
    match port_name(portnum) {
        Some(name) => name,
        None => UNKNOWN_APP@,
    }
}

/// Every port that Meshtastic names is published under its own name;
/// only a number that names no port gets "UNKNOWN_APP".
pub proof fn lemma_port_subject(portnum: i32)
    ensures
        port_name(portnum) is Some ==> port_subject(portnum) == port_name(portnum)->0,
        port_name(portnum) is None ==> port_subject(portnum) == UNKNOWN_APP@,
{
}

/// Convert PortNum enum to subject name
/// Returns subject like "TextMessageApp" or "UNKNOWN_APP" for unrecognized values
pub fn portnum_to_subject(portnum: i32) -> (r: String)
    ensures
        r@ == port_subject(portnum),
        port_name(portnum) is Some ==> r@ == port_name(portnum)->0,
        port_name(portnum) is None ==> r@ == UNKNOWN_APP@,
        portnum == text_message_port() ==> r@ == TEXT_MESSAGE_APP@,
{
    match port_debug_name(portnum) {
        Some(name) => name,
        None => UNKNOWN_APP.to_owned(),
    }
}

/// The subject a packet is published on.
pub open spec fn packet_subject(packet: MeshPacketInfo) -> Seq<char> {
    match packet.payload {
        PacketPayload::Decoded { portnum, .. } => PACKET_SUBJECT_PREFIX@ + port_subject(portnum),
        PacketPayload::Encrypted => ENCRYPTED_SUBJECT@,
        PacketPayload::Missing => UNKNOWN_SUBJECT@,
    }
}

/// A decoded packet of a named port is published under the packet prefix
/// and that port's name; encrypted packets and packets without a payload
/// go to their own subjects.
pub proof fn lemma_packet_subject(packet: MeshPacketInfo)
    ensures
        packet.payload is Decoded && port_name(packet.payload->portnum) is Some
            ==> packet_subject(packet) == PACKET_SUBJECT_PREFIX@ + port_name(packet.payload->portnum)->0,
        packet.payload is Encrypted ==> packet_subject(packet) == ENCRYPTED_SUBJECT@,
        packet.payload is Missing ==> packet_subject(packet) == UNKNOWN_SUBJECT@,
{
}

/// Build NATS subject for MeshPacket based on payload variant
/// Returns subject like "cbmesh.packet.TextMessageApp" or "cbmesh.packet.ENCRYPTED"
pub fn mesh_packet_subject(mesh_packet: &MeshPacketInfo) -> (r: String)
    ensures
        r@ == packet_subject(*mesh_packet),
        mesh_packet.payload is Decoded && port_name(mesh_packet.payload->portnum) is Some
            ==> r@ == PACKET_SUBJECT_PREFIX@ + port_name(mesh_packet.payload->portnum)->0,
        text_payload(*mesh_packet) is Some ==> r@ == TEXT_MESSAGE_SUBJECT@,
{
    proof {
        reveal_strlit("cbmesh.packet.");
        reveal_strlit("TextMessageApp");
        reveal_strlit("cbmesh.packet.TextMessageApp");
        assert(PACKET_SUBJECT_PREFIX@ + TEXT_MESSAGE_APP@ =~= TEXT_MESSAGE_SUBJECT@);
    }
    match &mesh_packet.payload {
        PacketPayload::Decoded { portnum, .. } => {
            let portnum_name = portnum_to_subject(*portnum);
            let mut subject = PACKET_SUBJECT_PREFIX.to_owned();
            subject.append(portnum_name.as_str());
            subject
        },
        PacketPayload::Encrypted => ENCRYPTED_SUBJECT.to_owned(),
        PacketPayload::Missing => UNKNOWN_SUBJECT.to_owned(),
    }
}

/// Extract packet timestamp from MeshPacket if available
/// Returns Unix timestamp in seconds, or None if not present
/// rx_time is a u32 where 0 means unset (never sent over radio)
pub fn extract_packet_timestamp(mesh_packet: &MeshPacketInfo) -> (r: Option<u32>)
    ensures
        r == (if mesh_packet.rx_time != 0 { Some(mesh_packet.rx_time) } else { None::<u32> }),
{
    if mesh_packet.rx_time != 0 {
        Some(mesh_packet.rx_time)
    } else {
        None
    }
}

} // verus!
