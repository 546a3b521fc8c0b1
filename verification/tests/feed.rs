use skyfeed::feed::{describe_feed_generator, did_json, get_feed_skeleton, render_skeleton};
use skyfeed::list_handler::ListHandler;
use skyfeed::{Config, FeedHandler, FeedResult, Limit, Post, Request, Uri};

fn config(hostname: &str) -> Config {
    Config { publisher_did: "did:plc:publisher".to_string(), feed_generator_hostname: hostname.to_string() }
}

fn post(uri: &str) -> Post {
    Post {
        author_did: "did:plc:abc".to_string(),
        cid: skyfeed::Cid("\"bafy\"".to_string()),
        uri: Uri(uri.to_string()),
        text: "I love my cat".to_string(),
        labels: Vec::new(),
        langs: Vec::new(),
        timestamp: 1_700_000_000_000_000,
        embed: None,
    }
}

#[test]
fn did_document_names_the_host() {
    let document = did_json(&config("example.com"));
    assert_eq!(document.id, "did:web:example.com");
    assert_eq!(document.context, vec!["https://www.w3.org/ns/did/v1".to_string()]);
    assert_eq!(document.service.len(), 1);
    assert_eq!(document.service[0].id, "#bsky_fg");
    assert_eq!(document.service[0].type_, "BskyFeedGenerator");
    assert_eq!(document.service[0].service_endpoint, "https://example.com");
}

#[test]
fn description_names_the_feed() {
    let description = describe_feed_generator(&config("feeds.example.org"), "Cats");
    assert_eq!(description.did, "did:web:feeds.example.org");
    assert_eq!(description.feeds.len(), 1);
    assert_eq!(description.feeds[0].uri, "at://did:plc:publisher/app.bsky.feed.generator/Cats");
}

#[test]
fn skeleton_renders_each_identifier_in_order() {
    let skeleton = render_skeleton(FeedResult {
        cursor: Some("opaque-token".to_string()),
        feed: vec![Uri("at://a/b/1".to_string()), Uri("at://a/b/2".to_string())],
    });
    assert_eq!(skeleton.cursor, Some("opaque-token".to_string()));
    let posts: Vec<String> = skeleton.feed.into_iter().map(|item| item.post).collect();
    assert_eq!(posts, vec!["at://a/b/1".to_string(), "at://a/b/2".to_string()]);
    let empty = render_skeleton(FeedResult { cursor: None, feed: Vec::new() });
    assert_eq!(empty.cursor, None);
    assert!(empty.feed.is_empty());
}

#[test]
fn skeleton_query_reaches_the_handler() {
    let mut handler = ListHandler::new(100);
    handler.insert_post(post("at://did:plc:abc/app.bsky.feed.post/1"));
    let skeleton = get_feed_skeleton(
        Request { cursor: None, feed: "at://x/app.bsky.feed.generator/Cats".to_string(), limit: Limit::new(5) },
        &handler,
    );
    let posts: Vec<String> = skeleton.feed.into_iter().map(|item| item.post).collect();
    assert_eq!(posts, vec!["at://did:plc:abc/app.bsky.feed.post/1".to_string()]);
    assert_eq!(skeleton.cursor, None);
}
