//! Which keys of the node store hold node records.
use vstd::prelude::*;
use vstd::utf8::encode_utf8;
use crate::utils::text::{is_hex_digit, str_equal, pow16, lemma_hex_digits_round_trip};
use crate::relay::handlers::node_key_text;
use crate::bot::node_tracker::{NodeRecord, NodeTracker};

verus! {

/// The key-value bucket of node records.
pub const NODES_BUCKET: &'static str = "cbmesh_nodes";
/// The key the relay's own node record is stored under.
pub const SELF_KEY: &'static str = "self";

/// Whether a key names a node record: not the relay's own key, 8 bytes
/// long, all hexadecimal digits.
pub open spec fn is_node_key_text(key: Seq<char>) -> bool {
    &&& key != SELF_KEY@
    &&& encode_utf8(key).len() == 8
    &&& forall|i: int| 0 <= i < key.len() ==> is_hex_digit(#[trigger] key[i])
}

/// Whether the character is an ASCII hexadecimal digit.
fn is_ascii_hexdigit(c: char) -> (r: bool)
    ensures
        r == is_hex_digit(c),
{
    ('0' <= c && c <= '9') || ('a' <= c && c <= 'f') || ('A' <= c && c <= 'F')
}

/// Whether a key of the node store names a node record (keys that are 8
/// hex digits are node ids; the relay's own key is skipped).
pub fn is_node_key(key: &str) -> (r: bool)
    ensures
        r == is_node_key_text(key@),
{
    if str_equal(key, SELF_KEY) {
        return false;
    }
    let n = key.unicode_len();
    let mut i: usize = 0;
    while i < n
        invariant
            n == key@.len(),
            i <= n,
            forall|j: int| 0 <= j < i ==> is_hex_digit(#[trigger] key@[j]),
        decreases n - i,
    {
        if !is_ascii_hexdigit(key.get_char(i)) {
            return false;
        }
        i += 1;
    }
    proof {
        assert(vstd::utf8::is_ascii_chars(key@));
        vstd::utf8::is_ascii_chars_encode_utf8(key@);
    }
    n == 8
}

/// The key the relay stores a node's record under is one the bot reads
/// back as a node record.
pub proof fn lemma_node_keys_recognized(num: u32)
    ensures
        is_node_key_text(node_key_text(num)),
{
    reveal_strlit("self");
    reveal_with_fuel(pow16, 9);
    assert(pow16(8) == 0x1_0000_0000);
    lemma_hex_digits_round_trip(num as nat, 8);
    let key = node_key_text(num);
    assert(vstd::utf8::is_ascii_chars(key));
    vstd::utf8::is_ascii_chars_encode_utf8(key);
    assert(key.len() != SELF_KEY@.len());
}

/// What `serde_json` reads from a node store entry as a Meshtastic
/// `MyNodeInfo`: its node number, or none when the bytes are not such a
/// record.
pub uninterp spec fn my_node_num_in(json: Seq<u8>) -> Option<u32>;

/// `serde_json::from_slice` into a Meshtastic `MyNodeInfo`, and its node
/// number.
#[verifier::external_body]
fn my_node_num_from_json(json: &[u8]) -> (r: Option<u32>)
    ensures
        r == my_node_num_in(json@),
{
    serde_json::from_slice::<meshtastic::protobufs::MyNodeInfo>(json).ok().map(|info| info.my_node_num)
}

/// Why the bot cannot learn its own node number.
#[derive(Debug, Clone, Copy, PartialEq, Eq, Structural)]
pub enum SetupError {
    /// The store has no entry under the key `self`: the relay has not run.
    SelfMissing,
    /// The entry under `self` is not a node record.
    SelfUnreadable,
}

/// The bot's own node number, from the store's entry under `self` (none
/// when there is no such entry).
pub fn read_my_node_num(entry: Option<&[u8]>) -> (r: Result<u32, SetupError>)
    ensures
        match entry {
            None => r == Err::<u32, SetupError>(SetupError::SelfMissing),
            Some(json) => match my_node_num_in(json@) {
                Some(num) => r == Ok::<u32, SetupError>(num),
                None => r == Err::<u32, SetupError>(SetupError::SelfUnreadable),
            },
        },
{
    match entry {
        None => Err(SetupError::SelfMissing),
        Some(json) => match my_node_num_from_json(json) {
            Some(num) => Ok(num),
            None => Err(SetupError::SelfUnreadable),
        },
    }
}

/// What `serde_json` reads from a node store entry as a Meshtastic
/// `NodeInfo`: its node number, when it was last heard, and its user's long
/// name when it has a user; none when the bytes are not such a record.
pub uninterp spec fn node_fields_in(json: Seq<u8>) -> Option<(u32, u32, Option<Seq<char>>)>;

/// The text of an optional string.
pub open spec fn optional_text(s: Option<String>) -> Option<Seq<char>> {
    match s {
        Some(t) => Some(t@),
        None => None,
    }
}

/// `serde_json::from_slice` into a Meshtastic `NodeInfo`, and its number,
/// last-heard time and user's long name.
#[verifier::external_body]
fn node_fields_from_json(json: &[u8]) -> (r: Option<(u32, u32, Option<String>)>)
    ensures
        r is Some <==> node_fields_in(json@) is Some,
        r is Some ==> node_fields_in(json@) == Some((r.unwrap().0, r.unwrap().1, optional_text(r.unwrap().2))),
{
    serde_json::from_slice::<meshtastic::protobufs::NodeInfo>(json).ok().map(|n| (n.num, n.last_heard, n.user.map(|u| u.long_name)))
}

/// Whether `record` is what the tracker keeps of a node with these fields:
/// the number, the last-heard time, and the long name (empty when there is
/// none).
pub open spec fn record_of(record: NodeRecord, fields: (u32, u32, Option<Seq<char>>)) -> bool {
    &&& record.num == fields.0
    &&& record.last_heard == fields.1
    &&& record.long_name@ == match fields.2 {
        Some(name) => name,
        None => Seq::<char>::empty(),
    }
}

/// What the tracker keeps of the node record in a store entry, when the
/// entry is one.
pub fn node_record_from_json(json: &[u8]) -> (r: Option<NodeRecord>)
    ensures
        r is Some <==> node_fields_in(json@) is Some,
        r matches Some(record) ==> record_of(record, node_fields_in(json@)->0),
{
    match node_fields_from_json(json) {
        Some((num, last_heard, name)) => {
            let long_name = match name {
                Some(n) => n,
                None => String::new(),
            };
            Some(NodeRecord { num, last_heard, long_name })
        },
        None => None,
    }
}

/// Loads a store entry into the tracker when its key names a node record
/// and the entry is one (the record is filed under its own node number);
/// says whether it did. Other entries leave the tracker as it was.
pub fn load_node_entry(tracker: &mut NodeTracker, key: &str, json: Option<&[u8]>) -> (loaded: bool)
    ensures
        loaded == (is_node_key_text(key@) && json is Some && node_fields_in(json.unwrap()@) is Some),
        loaded ==> {
            let fields = node_fields_in(json.unwrap()@)->0;
            &&& final(tracker).known() == old(tracker).known().insert(fields.0, final(tracker).known()[fields.0])
            &&& record_of(final(tracker).known()[fields.0], fields)
        },
        !loaded ==> final(tracker).known() == old(tracker).known(),
        final(tracker).own_num() == old(tracker).own_num(),
{
    if !is_node_key(key) {
        return false;
    }
    match json {
        None => false,
        Some(j) => match node_record_from_json(j) {
            Some(record) => {
                let ghost r = record;
                tracker.update_node(record);
                proof {
                    assert(final(tracker).known()[r.num] == r);
                }
                true
            },
            None => false,
        },
    }
}

} // verus!
