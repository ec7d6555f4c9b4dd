//! The `whoami` command: who the sender is, the signal and the hop count.
use vstd::prelude::*;
use crate::bot::replies::{CommandResponse, ReplyDestination};
use crate::radio::packet_metadata::{PacketMetadata, node_id_text};
use crate::utils::text::{decimal, push_decimal};
use crate::bot::node_tracker::{NodeTracker, known_name};

verus! {

pub const NAME: &'static str = "whoami";
pub const DESCRIPTION: &'static str = "Show your node info";

/// Who the whoami reply says the sender is: the long name with the node
/// id in brackets, or the node id alone when no long name is known.
pub open spec fn sender_text(name: Option<Seq<char>>, id: Seq<char>) -> Seq<char> {
    match name {
        Some(n) => n + " ("@ + id + ")"@,
        None => id,
    }
}

/// The whoami reply: who the sender is, the signal-to-noise ratio and the
/// hops, one per line.
pub open spec fn whoami_text(coords: PacketMetadata, name: Option<Seq<char>>, snr_text: Seq<char>) -> Seq<char> {
    "You are: "@ + sender_text(name, node_id_text(coords.from_id)) + "\nSignal: "@ + snr_text + " dB SNR\nHops: "@
        + decimal(coords.hops_traveled as nat)
}

/// Answers with the sender's long name (from the tracker) and node id, the
/// packet's signal-to-noise ratio (`snr_text`, the ratio as a decimal
/// number) and the hops it traveled.
pub fn whoami_command(coords: &PacketMetadata, snr_text: &str, tracker: &NodeTracker) -> (r: CommandResponse)
    ensures
        r.texts() == seq![whoami_text(*coords, known_name(tracker.known(), coords.from_id), snr_text@)],
        r.destination == ReplyDestination::Sender,
{
    let id = coords.from_id_hex();
    let mut response = "You are: ".to_owned();
    let mut named = false;
    match tracker.get_node(coords.from_id) {
        Some(node) => {
            if node.long_name.unicode_len() > 0 {
                response.append(node.long_name.as_str());
                response.append(" (");
                response.append(id.as_str());
                response.append(")");
                named = true;
            }
        },
        None => {},
    }
    if !named {
        response.append(id.as_str());
    }
    response.append("\nSignal: ");
    response.append(snr_text);
    response.append(" dB SNR\nHops: ");
    push_decimal(&mut response, coords.hops_traveled as u64);
    proof {
        assert(response@ =~= whoami_text(*coords, known_name(tracker.known(), coords.from_id), snr_text@));
    }
    CommandResponse::from(response)
}

} // verus!
