use vstd::prelude::*;

verus! {

/// Message format for cbmesh.outbound subject.
/// A simplified TX format that the relay turns into a radio transmission.
#[derive(Debug, Clone)]
pub struct OutboundMessage {
    /// Target node number (u32)
    pub to: u32,
    /// Channel index (typically 0)
    pub channel: u8,
    /// Message text content
    pub text: String,
    /// Whether this is a direct message (vs broadcast)
    pub is_dm: bool,
}

} // verus!
