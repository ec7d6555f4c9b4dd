pub mod client;
pub mod packet_metadata;
