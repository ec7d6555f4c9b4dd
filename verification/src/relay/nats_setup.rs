//! The headers the relay publishes with.
use vstd::prelude::*;
use crate::radio::packet_metadata::{node_id_string, node_id_text};
use crate::utils::clock::unix_now_secs;
use crate::utils::text::{decimal, decimal_string};

verus! {

/// A NATS header: name and value.
#[derive(Debug, Clone)]
pub struct Header {
    pub name: String,
    pub value: String,
}

/// The headers of a published packet, as (name, value) pairs: when it was
/// published, the relay's node id, and the packet's own timestamp if it has
/// one.
pub open spec fn relay_header_texts(publish_timestamp: u64, my_node_num: u32, packet_timestamp: Option<u32>) -> Seq<(Seq<char>, Seq<char>)> {
    let base = seq![
        ("publish_timestamp"@, decimal(publish_timestamp as nat)),
        ("relay_node_id"@, node_id_text(my_node_num)),
    ];
    match packet_timestamp {
        Some(ts) => base.push(("packet_timestamp"@, decimal(ts as nat))),
        None => base,
    }
}

/// The (name, value) texts of headers.
pub open spec fn header_texts(hs: Seq<Header>) -> Seq<(Seq<char>, Seq<char>)> {
    hs.map_values(|h: Header| (h.name@, h.value@))
}

/// The headers of a packet published at `publish_timestamp` (seconds since
/// the Unix epoch).
pub fn relay_headers_at(publish_timestamp: u64, my_node_num: u32, packet_timestamp: Option<u32>) -> (r: Vec<Header>)
    ensures
        header_texts(r@) == relay_header_texts(publish_timestamp, my_node_num, packet_timestamp),
{
    let mut headers: Vec<Header> = Vec::new();
    // Add publish timestamp (when relay published to NATS)
    headers.push(Header { name: "publish_timestamp".to_owned(), value: decimal_string(publish_timestamp) });
    // Add relay node ID
    headers.push(Header { name: "relay_node_id".to_owned(), value: node_id_string(my_node_num) });
    // Add packet timestamp if available
    if let Some(packet_ts) = packet_timestamp {
        headers.push(Header { name: "packet_timestamp".to_owned(), value: decimal_string(packet_ts as u64) });
    }
    proof {
        assert(header_texts(headers@) =~= relay_header_texts(publish_timestamp, my_node_num, packet_timestamp));
    }
    headers
}

/// The headers of a packet published now, by the system clock.
pub fn relay_headers(my_node_num: u32, packet_timestamp: Option<u32>) -> (r: Vec<Header>)
    ensures
        exists|t: u64| header_texts(r@) == relay_header_texts(t, my_node_num, packet_timestamp),
{
    let now = unix_now_secs();
    relay_headers_at(now, my_node_num, packet_timestamp)
}

} // verus!
