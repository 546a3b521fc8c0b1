use vstd::prelude::*;

verus! {

/// One service entry of a discovery document.
#[derive(Debug, Clone)]
pub struct Service {
    pub id: String,
    pub type_: String,
    pub service_endpoint: String,
}

/// The discovery document that names the feed generator's identity and where
/// it is served.
#[derive(Debug, Clone)]
pub struct DidDocument {
    pub context: Vec<String>,
    pub id: String,
    pub service: Vec<Service>,
}

/// One feed in a feed generator's description.
#[derive(Debug, Clone)]
pub struct FeedData {
    pub uri: String,
}

/// What a feed generator says of itself: its identity and its feeds.
#[derive(Debug, Clone)]
pub struct FeedGeneratorDescription {
    pub did: String,
    pub feeds: Vec<FeedData>,
}

/// One item of a feed skeleton on the wire.
#[derive(Debug, Clone)]
pub struct SkeletonFeedPost {
    pub post: String,
}

/// A page of a feed on the wire.
#[derive(Debug, Clone)]
pub struct FeedSkeleton {
    pub cursor: Option<String>,
    pub feed: Vec<SkeletonFeedPost>,
}

} // verus!
