//! A feed generator core: normalises change-feed commits into typed events,
//! dispatches them to a pluggable handler, and answers paginated feed queries.

pub mod config;
pub mod embed;
pub mod feed;
pub mod feed_handler;
pub mod list_handler;
pub mod models;
pub mod normalizer;
pub mod pagination;
pub mod record;
pub mod recorder;
mod text;
pub mod trusted;
pub mod utility_models;

pub use config::Config;
pub use feed_handler::FeedHandler;
pub use models::{
    Cid, Embed, ExternalEmbed, FeedResult, ImageEmbed, Label, Limit, MediaEmbed, Post, QuoteEmbed,
    Request, Uri, VideoEmbed,
};
pub use normalizer::Event;
pub use utility_models::{DidDocument, Service};
