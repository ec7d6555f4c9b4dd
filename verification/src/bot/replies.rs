use vstd::prelude::*;

verus! {

/// Specifies where a command response should be sent
#[derive(Debug, Clone, Copy, PartialEq, Eq, Structural)]
pub enum ReplyDestination {
    /// Reply to the sender via DM
    Sender,
    /// Reply via broadcast (if applicable)
    Broadcast,
}

/// Response data returned by command handlers
///
/// Commands return this struct containing the message(s) to send
/// and where to send them. The event loop handles the actual I/O.
#[derive(Debug, Clone)]
pub struct CommandResponse {
    /// Lines of text to send (each will be truncated to 200 bytes if needed)
    pub messages: Vec<String>,
    /// Where to send the response
    pub destination: ReplyDestination,
}

impl CommandResponse {
    /// The texts of the messages.
    pub open spec fn texts(&self) -> Seq<Seq<char>> {
        self.messages.deep_view()
    }

    /// Create a new response with a single message to the sender
    pub fn new(message: &str) -> (r: Self)
        ensures
            r.texts() == seq![message@],
            r.destination == ReplyDestination::Sender,
    {
        let r = Self { messages: vec![message.to_owned()], destination: ReplyDestination::Sender };
        proof {
            assert(r.texts() =~= seq![message@]);
        }
        r
    }

    /// Create a response with multiple messages to the sender
    pub fn new_multi(messages: Vec<String>) -> (r: Self)
        ensures
            r.messages == messages,
            r.destination == ReplyDestination::Sender,
    {
        Self { messages, destination: ReplyDestination::Sender }
    }

    /// Create a broadcast response
    pub fn broadcast(message: &str) -> (r: Self)
        ensures
            r.texts() == seq![message@],
            r.destination == ReplyDestination::Broadcast,
    {
        let r = Self { messages: vec![message.to_owned()], destination: ReplyDestination::Broadcast };
        proof {
            assert(r.texts() =~= seq![message@]);
        }
        r
    }
}

/// Convert a single string to a CommandResponse (to sender)
impl From<String> for CommandResponse {
    fn from(message: String) -> (r: Self)
        ensures
            r.texts() == seq![message@],
            r.destination == ReplyDestination::Sender,
    {
        CommandResponse::new(message.as_str())
    }
}

/// A response is not determined by the texts of its messages alone (equal
/// texts may be held by different `String` values), so no single response
/// is named as the conversion's result; `from` states the text and the
/// destination instead.
impl vstd::std_specs::convert::FromSpecImpl<String> for CommandResponse {
    open spec fn obeys_from_spec() -> bool {
        false
    }

    open spec fn from_spec(v: String) -> Self {
        choose|r: Self| r.texts() == seq![v@] && r.destination == ReplyDestination::Sender
    }
}

/// Convert a &str to a CommandResponse (to sender)
impl<'a> From<&'a str> for CommandResponse {
    fn from(message: &'a str) -> (r: Self)
        ensures
            r.texts() == seq![message@],
            r.destination == ReplyDestination::Sender,
    {
        CommandResponse::new(message)
    }
}

/// As for `String`: `from` states the text and the destination.
impl<'a> vstd::std_specs::convert::FromSpecImpl<&'a str> for CommandResponse {
    open spec fn obeys_from_spec() -> bool {
        false
    }

    open spec fn from_spec(v: &'a str) -> Self {
        choose|r: Self| r.texts() == seq![v@] && r.destination == ReplyDestination::Sender
    }
}

/// Convert a Vec<String> to a CommandResponse (to sender)
impl From<Vec<String>> for CommandResponse {
    fn from(messages: Vec<String>) -> (r: Self)
        ensures
            r.messages == messages,
            r.destination == ReplyDestination::Sender,
    {
        CommandResponse::new_multi(messages)
    }
}

/// The messages are kept as they are, to the sender.
impl vstd::std_specs::convert::FromSpecImpl<Vec<String>> for CommandResponse {
    open spec fn obeys_from_spec() -> bool {
        true
    }

    open spec fn from_spec(v: Vec<String>) -> Self {
        CommandResponse { messages: v, destination: ReplyDestination::Sender }
    }
}

} // verus!
