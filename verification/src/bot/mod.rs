//! The bot: which packets it answers, how a message names a command, and
//! the replies it sends.
pub mod bot_setup;
pub mod commands;
pub mod node_tracker;
pub mod replies;

use vstd::prelude::*;
use meshtastic::protobufs::mesh_packet::PayloadVariant;
use vstd::utf8::{valid_utf8, encode_utf8, is_ascii_chars};
use crate::bot::commands::{Command, CommandMetadata, answers_to, get_command};
use crate::bot::replies::CommandResponse;
use crate::radio::packet_metadata::{MeshPacketInfo, PacketMetadata, PacketPayload, packet_coords};
use crate::relay::OutboundMessage;
use crate::utils::bounded_message::{truncate_message, truncated_bytes, lemma_truncated_fits, lemma_truncation_idempotent, MAX_MESSAGE_BYTES};
use crate::radio::client::{Destination, SendAction, send_action};
use crate::relay::handlers::outbound_coords;

verus! {

/// Command prefix for bot commands
pub const COMMAND_PREFIX: char = '.';

/// The Meshtastic port number of plain text messages.
pub open spec fn text_message_port() -> i32 {
    1
}

/// Whether the port number is Meshtastic's text message port: `PortNum`
/// converts the number to `TextMessageApp`, which the protobuf definitions
/// number 1.
#[verifier::external_body]
fn is_text_message_port(portnum: i32) -> (r: bool)
    ensures
        r == (portnum == text_message_port()),
{
    match meshtastic::protobufs::PortNum::try_from(portnum) {
        Ok(meshtastic::protobufs::PortNum::TextMessageApp) => true,
        _ => false,
    }
}

/// `String::from_utf8`: the string that the bytes encode, or none when they
/// are not valid UTF-8.
#[verifier::external_body]
fn string_from_utf8(bytes: Vec<u8>) -> (r: Option<String>)
    ensures
        r is Some <==> valid_utf8(bytes@),
        r matches Some(s) ==> encode_utf8(s@) == bytes@,
{
    String::from_utf8(bytes).ok()
}

/// The lowercase form that `str::to_lowercase` gives a string (Unicode's
/// lowercase mapping).
pub uninterp spec fn lowercase(s: Seq<char>) -> Seq<char>;

/// The text with its ASCII capital letters made small, other characters
/// unchanged.
pub open spec fn ascii_lower(s: Seq<char>) -> Seq<char> {
    s.map_values(|c: char| if 65 <= (c as u32) <= 90 { ((c as u32) + 32) as char } else { c })
}

/// `str::to_lowercase`. On ASCII text Unicode's lowercase mapping makes the
/// capital letters A to Z small and leaves the other characters as they are.
#[verifier::external_body]
fn to_lowercase(s: &str) -> (r: String)
    ensures
        r@ == lowercase(s@),
        is_ascii_chars(s@) ==> r@ == ascii_lower(s@),
{
    s.to_lowercase()
}

/// The bytes of a text message's payload, when the packet carries a
/// decoded text message.
pub open spec fn text_payload(packet: MeshPacketInfo) -> Option<Seq<u8>> {
    match packet.payload {
        PacketPayload::Decoded { portnum, payload } => if portnum == text_message_port() {
            Some(payload@)
        } else {
            None
        },
        _ => None,
    }
}

/// Whether the packet carries a text message whose payload is valid UTF-8.
pub open spec fn has_text(packet: MeshPacketInfo) -> bool {
    text_payload(packet) matches Some(b) && valid_utf8(b)
}

/// Extract text from a packet if it's a text message whose payload is
/// valid UTF-8.
pub fn extract_text_from_packet(packet: &MeshPacketInfo) -> (r: Option<String>)
    ensures
        r is Some <==> has_text(*packet),
        r matches Some(s) ==> Some(encode_utf8(s@)) == text_payload(*packet),
{
    match &packet.payload {
        PacketPayload::Decoded { portnum, payload } => {
            if is_text_message_port(*portnum) {
                string_from_utf8(payload.clone())
            } else {
                None
            }
        },
        _ => None,
    }
}

/// What the bot does with a packet from the text message stream.
#[derive(Debug)]
pub enum BotDecision {
    /// Not addressed to the bot: acknowledged and skipped.
    SkipNotDm,
    /// No readable text: acknowledged and skipped.
    SkipNoText,
    /// A DM with text: handled.
    Handle { coords: PacketMetadata, text: String },
}

/// Whether `r` is what the bot does with `packet` as the node `my_node_num`:
/// a packet not addressed to the bot is skipped, so is a DM without
/// readable text, and a DM with text is handled.
pub open spec fn bot_decides(packet: MeshPacketInfo, my_node_num: u32, r: BotDecision) -> bool {
    &&& packet.to != my_node_num ==> r is SkipNotDm
    &&& packet.to == my_node_num ==> match r {
        BotDecision::SkipNotDm => false,
        BotDecision::SkipNoText => !has_text(packet),
        BotDecision::Handle { coords, text } => {
            &&& coords == packet_coords(packet, my_node_num)
            &&& Some(encode_utf8(text@)) == text_payload(packet)
        },
    }
}

/// Decides what the bot does with a packet: only DMs that carry text are
/// handled.
pub fn bot_step(packet: &MeshPacketInfo, my_node_num: u32) -> (r: BotDecision)
    ensures
        bot_decides(*packet, my_node_num, r),
{
    let coords = PacketMetadata::from_packet(packet, my_node_num);
    if !coords.is_dm {
        return BotDecision::SkipNotDm;
    }
    match extract_text_from_packet(packet) {
        Some(text) => BotDecision::Handle { coords, text },
        None => BotDecision::SkipNoText,
    }
}

/// What `serde_json` reads from a stream message as a Meshtastic
/// `MeshPacket`: the fields routing reads, and the bits of its
/// signal-to-noise ratio (an `f32`); none when the bytes are not such a
/// packet.
pub uninterp spec fn packet_in(json: Seq<u8>) -> Option<(MeshPacketInfo, u32)>;

/// `serde_json::from_slice` into a Meshtastic `MeshPacket`, and the fields
/// routing reads, moved over one for one (the signal-to-noise ratio by
/// `f32::to_bits`).
#[verifier::external_body]
fn packet_from_json(json: &[u8]) -> (r: Option<(MeshPacketInfo, u32)>)
    ensures
        r == packet_in(json@),
{
    let p: meshtastic::protobufs::MeshPacket = serde_json::from_slice(json).ok()?;
    let payload = match p.payload_variant {
        Some(PayloadVariant::Decoded(d)) => PacketPayload::Decoded { portnum: d.portnum, payload: d.payload },
        Some(PayloadVariant::Encrypted(_)) => PacketPayload::Encrypted,
        None => PacketPayload::Missing,
    };
    let info = MeshPacketInfo {
        from: p.from, to: p.to, channel: p.channel, id: p.id,
        rx_time: p.rx_time, hop_limit: p.hop_limit, hop_start: p.hop_start, payload,
    };
    Some((info, p.rx_snr.to_bits()))
}

/// What the bot makes of a message from the text message stream.
#[derive(Debug)]
pub enum ReceivedPacket {
    /// The message is not a mesh packet: acknowledged and skipped.
    Unreadable,
    /// A mesh packet: what the bot does with it, and the bits of its
    /// signal-to-noise ratio (an `f32`).
    Read { decision: BotDecision, snr_bits: u32 },
}

/// Reads a message of the text message stream and decides what the bot
/// does with it: a payload that is not a mesh packet is skipped; otherwise
/// as [`bot_step`] decides.
pub fn receive_packet(payload: &[u8], my_node_num: u32) -> (r: ReceivedPacket)
    ensures
        match packet_in(payload@) {
            None => r is Unreadable,
            Some((packet, bits)) => r matches ReceivedPacket::Read { decision, snr_bits }
                && snr_bits == bits && bot_decides(packet, my_node_num, decision),
        },
{
    match packet_from_json(payload) {
        None => ReceivedPacket::Unreadable,
        Some((packet, snr_bits)) => ReceivedPacket::Read { decision: bot_step(&packet, my_node_num), snr_bits },
    }
}

/// The index of the first space in `m`, at or after `i` (`m.len()` when
/// there is none).
pub open spec fn first_space_from(m: Seq<char>, i: int) -> int
    decreases m.len() - i,
{
    if i >= m.len() {
        m.len() as int
    } else if m[i] == ' ' {
        i
    } else {
        first_space_from(m, i + 1)
    }
}

/// The text before the first space (all of it when there is none).
pub open spec fn first_word(m: Seq<char>) -> Seq<char> {
    m.take(first_space_from(m, 0))
}

/// The text after the first space (empty when there is none).
pub open spec fn argument_text(m: Seq<char>) -> Seq<char> {
    if first_space_from(m, 0) < m.len() {
        m.skip(first_space_from(m, 0) + 1)
    } else {
        seq![]
    }
}

/// Whether `c` is white space: a character with Unicode's `White_Space`
/// property, as `char::is_whitespace` has it.
pub open spec fn is_white_space(c: char) -> bool {
    let n = c as u32;
    ||| 0x9 <= n <= 0xd
    ||| n == 0x20
    ||| n == 0x85
    ||| n == 0xa0
    ||| n == 0x1680
    ||| 0x2000 <= n <= 0x200a
    ||| n == 0x2028
    ||| n == 0x2029
    ||| n == 0x202f
    ||| n == 0x205f
    ||| n == 0x3000
}

/// Whether `c` is white space.
fn is_white_space_char(c: char) -> (r: bool)
    ensures
        r == is_white_space(c),
{
    let n = c as u32;
    (0x9 <= n && n <= 0xd) || n == 0x20 || n == 0x85 || n == 0xa0 || n == 0x1680
        || (0x2000 <= n && n <= 0x200a) || n == 0x2028 || n == 0x2029 || n == 0x202f
        || n == 0x205f || n == 0x3000
}

/// The index of the first character of `m` at or after `i` that is not
/// white space (`m.len()` when there is none).
pub open spec fn first_non_white_from(m: Seq<char>, i: int) -> int
    decreases m.len() - i,
{
    if i >= m.len() {
        m.len() as int
    } else if is_white_space(m[i]) {
        first_non_white_from(m, i + 1)
    } else {
        i
    }
}

/// The end of `m` before its trailing white space, looking back from `j`
/// but not before `lo`.
pub open spec fn end_before_white(m: Seq<char>, j: int, lo: int) -> int
    decreases j - lo,
{
    if j <= lo {
        lo
    } else if is_white_space(m[j - 1]) {
        end_before_white(m, j - 1, lo)
    } else {
        j
    }
}

/// The message without its leading and trailing white space.
pub open spec fn trimmed(m: Seq<char>) -> Seq<char> {
    let start = first_non_white_from(m, 0);
    m.subrange(start, end_before_white(m, m.len() as int, start))
}

/// The name a message gives a command: the first word of the message
/// (leading and trailing white space ignored) after the prefix, when that
/// word starts with the prefix.
pub open spec fn named_command(m: Seq<char>) -> Option<Seq<char>> {
    let word = first_word(trimmed(m));
    if word.len() > 0 && word[0] == COMMAND_PREFIX {
        Some(lowercase(word.skip(1)))
    } else {
        None
    }
}

/// Whether the message names a command that exists.
pub open spec fn invokes_command(m: Seq<char>) -> bool {
    named_command(m) matches Some(name) && exists|c: Command| #[trigger] answers_to(c, name)
}

/// The message without its leading and trailing white space.
fn trim_white_space(message: &str) -> (r: &str)
    ensures
        r@ == trimmed(message@),
{
    let n = message.unicode_len();
    let mut start: usize = 0;
    while start < n && is_white_space_char(message.get_char(start))
        invariant
            n == message@.len(),
            start <= n,
            first_non_white_from(message@, 0) == first_non_white_from(message@, start as int),
        decreases n - start,
    {
        start += 1;
    }
    assert(first_non_white_from(message@, 0) == start);
    let mut end: usize = n;
    while end > start && is_white_space_char(message.get_char(end - 1))
        invariant
            n == message@.len(),
            start <= end <= n,
            first_non_white_from(message@, 0) == start,
            end_before_white(message@, n as int, start as int) == end_before_white(message@, end as int, start as int),
        decreases end - start,
    {
        end -= 1;
    }
    assert(end_before_white(message@, n as int, start as int) == end);
    message.substring_char(start, end)
}

/// A command that a message invokes, and the text after the command word.
pub struct CommandInvocation {
    pub metadata: CommandMetadata,
    pub argument: String,
}

/// The first space in `m` at or after `i` lies in `[i, m.len()]`, and no
/// space comes before it.
proof fn lemma_first_space(m: Seq<char>, i: int)
    requires
        0 <= i <= m.len(),
    ensures
        i <= first_space_from(m, i) <= m.len(),
        first_space_from(m, i) < m.len() ==> m[first_space_from(m, i)] == ' ',
        forall|j: int| i <= j < first_space_from(m, i) ==> m[j] != ' ',
    decreases m.len() - i,
{
    if i < m.len() && m[i] != ' ' {
        lemma_first_space(m, i + 1);
    }
}

/// Finds which command a message names, if any. Only DMs are answered;
/// leading and trailing white space is ignored; the first word must start
/// with the prefix, and the rest of it, in lowercase, must be a command's
/// name or alias. The argument is the rest of the message after the first
/// space.
pub fn parse_command(coords: &PacketMetadata, message: &str) -> (r: Option<CommandInvocation>)
    ensures
        r is Some <==> (coords.is_dm && invokes_command(message@)),
        r matches Some(inv) ==> {
            &&& named_command(message@) matches Some(name) && answers_to(inv.metadata.command, name)
            &&& inv.metadata.describes(inv.metadata.command)
            &&& inv.argument@ == argument_text(trimmed(message@))
        },
        coords.is_dm && first_word(trimmed(message@)).len() > 0 && first_word(trimmed(message@))[0] == COMMAND_PREFIX
            && is_ascii_chars(first_word(trimmed(message@)).skip(1))
            ==> named_command(message@) == Some(ascii_lower(first_word(trimmed(message@)).skip(1))),
{
    // ONLY respond to DMs right now
    if !coords.is_dm {
        return None;
    }
    let text = trim_white_space(message);
    let ghost t = trimmed(message@);
    let n = text.unicode_len();
    let mut space: usize = 0;
    while space < n && text.get_char(space) != ' '
        invariant
            text@ == t,
            n == t.len(),
            space <= n,
            first_space_from(t, 0) == first_space_from(t, space as int),
        decreases n - space,
    {
        space += 1;
    }
    proof {
        lemma_first_space(t, 0);
    }
    let command_text = text.substring_char(0, space);
    proof {
        assert(first_space_from(t, 0) == space);
        assert(command_text@ =~= first_word(t));
    }
    if space == 0 || command_text.get_char(0) != COMMAND_PREFIX {
        return None;
    }
    let command_name = command_text.substring_char(1, space);
    let lowered = to_lowercase(command_name);
    proof {
        assert(command_name@ =~= first_word(t).skip(1));
        assert(named_command(message@) == Some(lowered@));
    }
    let metadata = match get_command(lowered.as_str()) {
        Some(m) => m,
        None => return None,
    };
    let argument = if space < n {
        text.substring_char(space + 1, n).to_owned()
    } else {
        String::new()
    };
    proof {
        assert(argument@ =~= argument_text(t));
        assert(answers_to(metadata.command, lowered@));
        let nm = named_command(message@);
        assert(nm->0 == lowered@);
        assert(answers_to(metadata.command, nm->0));
        assert(invokes_command(message@));
    }
    Some(CommandInvocation { metadata, argument })
}

/// The reply to `coords` that carries `text`: to the sender, on the
/// packet's channel (its low 8 bits), as a DM when the packet was one.
pub open spec fn reply_to(coords: PacketMetadata, out: OutboundMessage, text: Seq<char>) -> bool {
    &&& out.to == coords.from_id
    &&& out.channel == coords.channel_index as u8
    &&& out.is_dm == coords.is_dm
    &&& encode_utf8(out.text@) == truncated_bytes(encode_utf8(text))
}

/// The outbound messages that answer a command: each line of the response,
/// truncated to fit, sent back to the sender.
pub fn plan_replies(coords: &PacketMetadata, response: &CommandResponse) -> (r: Vec<OutboundMessage>)
    ensures
        r.len() == response.messages.len(),
        forall|i: int| 0 <= i < r.len() ==> reply_to(*coords, #[trigger] r[i], response.messages[i]@),
{
    let mut out: Vec<OutboundMessage> = Vec::new();
    let n = response.messages.len();
    let mut i: usize = 0;
    while i < n
        invariant
            n == response.messages.len(),
            i <= n,
            out.len() == i,
            forall|j: int| 0 <= j < i ==> reply_to(*coords, #[trigger] out[j], response.messages[j]@),
        decreases n - i,
    {
        let text = truncate_message(response.messages[i].as_str());
        out.push(OutboundMessage {
            to: coords.from_id,
            channel: coords.channel_index as u8,
            text,
            is_dm: coords.is_dm,
        });
        i += 1;
    }
    out
}

/// A reply to a DM, once the relay picks it up, is transmitted to the
/// sender of the DM on the DM's channel, and the relay's own truncation
/// leaves its text as it is (the text already fits).
pub proof fn lemma_reply_reaches_sender(coords: PacketMetadata, out: OutboundMessage, text: Seq<char>, relay_node_num: u32)
    requires
        reply_to(coords, out, text),
        coords.is_dm,
    ensures
        send_action(outbound_coords(out, relay_node_num), false) == (SendAction::Transmit {
            destination: Destination::Node(coords.from_id),
            channel: (coords.channel_index as u8) as u32,
        }),
        encode_utf8(out.text@).len() <= MAX_MESSAGE_BYTES,
        truncated_bytes(encode_utf8(out.text@)) == encode_utf8(out.text@),
{
    broadcast use vstd::utf8::group_utf8_lib;
    lemma_truncated_fits(encode_utf8(text));
    lemma_truncation_idempotent(encode_utf8(text));
}

} // verus!
