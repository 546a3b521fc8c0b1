use vstd::prelude::*;

verus! {

/// A reference to stored binary data. Only the typed form names its content
/// hash and media type in a way this library reads.
#[derive(Debug, Clone)]
pub enum BlobRef {
    Typed { cid: String, mime_type: String },
    Untyped,
}

/// One entry of an images embed as it arrives.
#[derive(Debug, Clone)]
pub struct ImageRecord {
    pub image: BlobRef,
    pub alt: String,
}

/// A video embed as it arrives.
#[derive(Debug, Clone)]
pub struct VideoRecord {
    pub video: BlobRef,
    pub alt: Option<String>,
}

/// A link card as it arrives.
#[derive(Debug, Clone)]
pub struct ExternalRecord {
    pub title: String,
    pub description: String,
    pub uri: String,
    pub thumb: Option<BlobRef>,
}

/// A reference to one version of a record: its identifier and content hash.
#[derive(Debug, Clone)]
pub struct StrongRef {
    pub cid: String,
    pub uri: String,
}

/// The media union of a quote with media. `Unknown` stands for every shape
/// that is not recognised.
#[derive(Debug, Clone)]
pub enum MediaRecord {
    Images(Vec<ImageRecord>),
    Video(VideoRecord),
    External(ExternalRecord),
    Unknown,
}

/// The embed union of a post record. `Unknown` stands for every shape that is
/// not recognised.
#[derive(Debug, Clone)]
pub enum EmbedRecord {
    Images(Vec<ImageRecord>),
    Video(VideoRecord),
    External(ExternalRecord),
    Record(StrongRef),
    RecordWithMedia(StrongRef, MediaRecord),
    Unknown,
}

/// The labels union of a post record.
#[derive(Debug, Clone)]
pub enum LabelsRecord {
    SelfLabels(Vec<String>),
    Unknown,
}

/// The decoded payload of a post.
#[derive(Debug, Clone)]
pub struct PostRecord {
    pub text: String,
    pub labels: Option<LabelsRecord>,
    pub embed: Option<EmbedRecord>,
    pub langs: Option<Vec<String>>,
}

/// The decoded payload of a like.
#[derive(Debug, Clone)]
pub struct LikeRecord {
    pub subject: StrongRef,
}

/// The decoded payload of a commit. `Other` stands for every record type that
/// is neither a post nor a like.
#[derive(Debug, Clone)]
pub enum Record {
    Post(PostRecord),
    Like(LikeRecord),
    Other,
}

/// What a commit did to its record.
#[derive(Debug, Clone, Copy, PartialEq, Eq, Structural)]
pub enum Operation {
    Create,
    Update,
    Delete,
}

/// One entry of the change feed.
#[derive(Debug, Clone)]
pub struct CommitRecord {
    pub operation: Operation,
    pub collection: String,
    pub author: String,
    pub rkey: String,
    pub cid: Option<String>,
    pub record: Option<Record>,
    pub time_us: u64,
}

} // verus!
