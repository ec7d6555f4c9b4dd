//! The `ping` command.
use vstd::prelude::*;
use crate::bot::replies::{CommandResponse, ReplyDestination};

verus! {

pub const NAME: &'static str = "ping";
pub const DESCRIPTION: &'static str = "Test connectivity";

/// The reply to a ping.
pub const PONG: &'static str = "pong";

/// Answers "pong".
pub fn ping_command() -> (r: CommandResponse)
    ensures
        r.texts() == seq![PONG@],
        r.destination == ReplyDestination::Sender,
{
    CommandResponse::from(PONG)
}

} // verus!
