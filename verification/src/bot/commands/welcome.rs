//! The `welcome` command.
use vstd::prelude::*;
use crate::bot::replies::{CommandResponse, ReplyDestination};

verus! {

pub const NAME: &'static str = "welcome";
pub const ALIAS_HELLO: &'static str = "hello";
pub const ALIAS_LOGIN: &'static str = "login";
pub const DESCRIPTION: &'static str = "Welcome message";

/// The welcome banner.
pub const WELCOME_TEXT: &'static str = "WELCOME TO MESH JAWN v0.0.1\n\n🤖 I'm a bot on the Philly Meshtastic network written in Rust. Check me out on Github: cbeck527/mesh-jawn\n\nSend .help for a list of commands!";

/// Answers with the welcome banner.
pub fn welcome_command() -> (r: CommandResponse)
    ensures
        r.texts() == seq![WELCOME_TEXT@],
        r.destination == ReplyDestination::Sender,
{
    CommandResponse::from(WELCOME_TEXT)
}

} // verus!
