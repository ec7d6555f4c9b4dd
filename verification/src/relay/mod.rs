pub mod config;
pub mod handlers;
pub mod nats_setup;
pub mod outbound_message;
pub mod subjects;

pub use config::RelayConfig;
pub use outbound_message::OutboundMessage;

use vstd::prelude::*;
use crate::radio::packet_metadata::MeshPacketInfo;
use crate::relay::handlers::{MeshPacketPlan, NodeInfoPlan, node_key_text, packet_action, plan_mesh_packet, plan_node_info, store_action};
use crate::relay::subjects::{packet_subject, TEXT_MESSAGE_SUBJECT};
use crate::bot::text_payload;

verus! {

/// What the radio hands the relay.
#[derive(Debug)]
pub enum RadioEvent {
    /// A mesh packet.
    Packet(MeshPacketInfo),
    /// The radio's own node record (expected only while connecting).
    MyInfo { my_node_num: u32 },
    /// A node record, for the node numbered `num`.
    NodeInfo { num: u32 },
    /// Something else the relay has no use for.
    Other,
    /// A message with no payload.
    Empty,
    /// The radio connection is gone.
    Disconnected,
}

/// What the relay does next.
#[derive(Debug)]
pub enum RelayAction {
    /// The radio disconnected: a fatal error, the relay exits with an error.
    FatalDisconnect,
    /// Handle a mesh packet as planned.
    Packet(MeshPacketPlan),
    /// Warn of an unexpected own node record.
    WarnMyInfo { my_node_num: u32 },
    /// Handle a node record as planned.
    NodeInfo(NodeInfoPlan),
    /// Nothing to do.
    Ignore,
}

/// The relay's step for a radio event, with or without a NATS connection
/// (the node store exists exactly when the connection does). The RX path
/// is the same in read-only mode, which only holds back transmission.
pub fn relay_step(event: &RadioEvent, has_nats: bool) -> (r: RelayAction)
    ensures
        match *event {
            RadioEvent::Packet(p) => r matches RelayAction::Packet(plan) && plan.subject@ == packet_subject(p)
                && plan.action == packet_action(p, has_nats)
                && (text_payload(p) is Some ==> plan.subject@ == TEXT_MESSAGE_SUBJECT@),
            RadioEvent::MyInfo { my_node_num } => r == RelayAction::WarnMyInfo { my_node_num },
            RadioEvent::NodeInfo { num } => r matches RelayAction::NodeInfo(plan) && plan.key@ == node_key_text(num)
                && plan.action == store_action(has_nats),
            RadioEvent::Other | RadioEvent::Empty => r is Ignore,
            RadioEvent::Disconnected => r is FatalDisconnect,
        },
{
    match event {
        RadioEvent::Packet(packet) => RelayAction::Packet(plan_mesh_packet(packet, has_nats)),
        RadioEvent::MyInfo { my_node_num } => RelayAction::WarnMyInfo { my_node_num: *my_node_num },
        RadioEvent::NodeInfo { num } => RelayAction::NodeInfo(plan_node_info(*num, has_nats)),
        RadioEvent::Other => RelayAction::Ignore,
        RadioEvent::Empty => RelayAction::Ignore,
        RadioEvent::Disconnected => RelayAction::FatalDisconnect,
    }
}

} // verus!
