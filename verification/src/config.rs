use vstd::prelude::*;

verus! {

/// What the discovery documents are rendered from.
#[derive(Debug, Clone)]
pub struct Config {
    pub publisher_did: String,
    pub feed_generator_hostname: String,
}

} // verus!
