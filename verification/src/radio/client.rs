//! How a message goes out over the radio.
use vstd::prelude::*;
use vstd::utf8::encode_utf8;
use crate::radio::packet_metadata::PacketMetadata;
use crate::utils::bounded_message::{truncate_message, truncated_bytes};

verus! {

/// Where a packet goes.
#[derive(Debug, Clone, Copy, PartialEq, Eq, Structural)]
pub enum Destination {
    /// To one node.
    Node(u32),
    /// To every node on the channel.
    Broadcast,
}

/// What sending does.
#[derive(Debug, Clone, Copy, PartialEq, Eq, Structural)]
pub enum SendAction {
    /// Read-only mode: the message is logged, not transmitted.
    DryRun,
    /// The message is transmitted, with acknowledgement requested, to the
    /// destination on the channel.
    Transmit { destination: Destination, channel: u32 },
}

/// The text to send and what is done with it.
#[derive(Debug)]
pub struct SendPlan {
    pub text: String,
    pub action: SendAction,
}

/// What sending to `coords` does: nothing but a log line in read-only
/// mode; otherwise a transmission on the channel, to the recipient for a DM
/// and to everyone for anything else.
pub open spec fn send_action(coords: PacketMetadata, read_only: bool) -> SendAction {
    if read_only {
        SendAction::DryRun
    } else {
        SendAction::Transmit {
            destination: if coords.is_dm { Destination::Node(coords.to_id) } else { Destination::Broadcast },
            channel: coords.channel_index,
        }
    }
}

/// Read-only mode never transmits, whatever the message is addressed to;
/// otherwise a message is transmitted on its channel, to its recipient
/// exactly when it is a DM and to everyone when it is not.
pub proof fn lemma_send_action(coords: PacketMetadata, read_only: bool)
    ensures
        read_only ==> send_action(coords, read_only) == SendAction::DryRun,
        !read_only ==> (send_action(coords, read_only) matches SendAction::Transmit { destination, channel }
            && channel == coords.channel_index
            && (coords.is_dm ==> destination == Destination::Node(coords.to_id))
            && (!coords.is_dm ==> destination == Destination::Broadcast)),
{
}

/// Sending a message to `coords`: the text is truncated to fit the radio's
/// limit; in read-only mode it is only logged, otherwise it goes to the
/// recipient when it is a DM and to everyone on the channel when not.
pub fn plan_send(message: &str, coords: &PacketMetadata, read_only: bool) -> (r: SendPlan)
    ensures
        encode_utf8(r.text@) == truncated_bytes(encode_utf8(message@)),
        r.action == send_action(*coords, read_only),
        read_only ==> r.action == SendAction::DryRun,
        !read_only && coords.is_dm ==> r.action == (SendAction::Transmit {
            destination: Destination::Node(coords.to_id),
            channel: coords.channel_index,
        }),
        !read_only && !coords.is_dm ==> r.action == (SendAction::Transmit {
            destination: Destination::Broadcast,
            channel: coords.channel_index,
        }),
{
    // Truncate message to fit within Meshtastic's 200-byte limit
    let text = truncate_message(message);
    if read_only {
        return SendPlan { text, action: SendAction::DryRun };
    }
    let destination = if coords.is_dm {
        Destination::Node(coords.to_id)
    } else {
        Destination::Broadcast
    };
    SendPlan { text, action: SendAction::Transmit { destination, channel: coords.channel_index } }
}

} // verus!
