use vstd::prelude::*;

verus! {

/// Configuration for NATS JetStream relay
#[derive(Debug, Clone)]
pub struct RelayConfig {
    pub nats_url: String,
    pub read_only: bool,
}

} // verus!
