use skyfeed::feed::{dispatch, ingest, ingest_all};
use skyfeed::normalizer::{
    calendar_micros, has_invalid_timestamp, normalize, signed_micros, Event,
};
use skyfeed::record::{
    CommitRecord, EmbedRecord, LabelsRecord, LikeRecord, Operation, PostRecord, Record,
    StrongRef,
};
use skyfeed::recorder::{Call, Recorder};
use skyfeed::{FeedHandler, FeedResult, Label, Post, Request, Uri};

const NOW_US: u64 = 1_700_000_000_000_000;

fn post_record(text: &str) -> PostRecord {
    PostRecord { text: text.to_string(), labels: None, embed: None, langs: None }
}

fn commit(
    operation: Operation,
    collection: &str,
    author: &str,
    rkey: &str,
    cid: Option<&str>,
    record: Option<Record>,
    time_us: u64,
) -> CommitRecord {
    CommitRecord {
        operation,
        collection: collection.to_string(),
        author: author.to_string(),
        rkey: rkey.to_string(),
        cid: cid.map(|c| c.to_string()),
        record,
        time_us,
    }
}

fn post_create(author: &str, rkey: &str, text: &str) -> CommitRecord {
    commit(
        Operation::Create,
        "app.bsky.feed.post",
        author,
        rkey,
        Some("bafyreib2rxk3rh6kzwq"),
        Some(Record::Post(post_record(text))),
        NOW_US,
    )
}

/// A handler that keeps nothing.
struct Sink;

impl FeedHandler for Sink {
    fn insert_post(&mut self, _post: Post) {}

    fn delete_post(&mut self, _uri: Uri) {}

    fn like_post(&mut self, _like_uri: Uri, _liked_post_uri: Uri) {}

    fn delete_like(&mut self, _like_uri: Uri) {}

    fn serve_feed(&self, _request: Request) -> FeedResult {
        FeedResult { cursor: None, feed: Vec::new() }
    }
}

fn uri(text: &str) -> Uri {
    Uri(text.to_string())
}

#[test]
fn post_create_becomes_post_created() {
    let event = normalize(&post_create("did:plc:abc", "1", "I love my cat"));
    match event {
        Some(Event::PostCreated(post)) => {
            assert_eq!(post.uri.0, "at://did:plc:abc/app.bsky.feed.post/1");
            assert_eq!(post.author_did, "did:plc:abc");
            assert_eq!(post.text, "I love my cat");
            assert_eq!(post.cid.0, "\"bafyreib2rxk3rh6kzwq\"");
            assert_eq!(post.timestamp, 1_700_000_000_000_000i64);
            assert!(post.labels.is_empty());
            assert!(post.langs.is_empty());
            assert!(post.embed.is_none());
        }
        other => panic!("unexpected outcome: {:?}", other),
    }
}

#[test]
fn post_create_inserts_exactly_once() {
    let mut recorder = Recorder::new(Sink);
    let dispatched = ingest(&mut recorder, &post_create("did:plc:abc", "3kabc", "hello"));
    assert!(dispatched);
    assert_eq!(
        recorder.calls(),
        &vec![Call::InsertPost(uri("at://did:plc:abc/app.bsky.feed.post/3kabc"))]
    );
}

#[test]
fn content_hash_is_kept_as_json_text() {
    let mut create = post_create("did:plc:abc", "1", "quote \" and backslash");
    create.cid = Some("a\"b\\c".to_string());
    match normalize(&create) {
        Some(Event::PostCreated(post)) => assert_eq!(post.cid.0, "\"a\\\"b\\\\c\""),
        other => panic!("unexpected outcome: {:?}", other),
    }
}

#[test]
fn language_tags_are_kept_as_json_text() {
    let mut record = post_record("bonjour");
    record.langs = Some(vec!["fr".to_string(), "en-US".to_string()]);
    let mut create = post_create("did:plc:abc", "1", "");
    create.record = Some(Record::Post(record));
    match normalize(&create) {
        Some(Event::PostCreated(post)) => {
            assert_eq!(post.langs, vec!["\"fr\"".to_string(), "\"en-US\"".to_string()]);
        }
        other => panic!("unexpected outcome: {:?}", other),
    }
}

#[test]
fn labels_are_converted_one_by_one() {
    let mut record = post_record("x");
    record.labels = Some(LabelsRecord::SelfLabels(vec![
        "!hide".to_string(),
        "porn".to_string(),
        "spoiler".to_string(),
    ]));
    let mut create = post_create("did:plc:abc", "1", "");
    create.record = Some(Record::Post(record));
    match normalize(&create) {
        Some(Event::PostCreated(post)) => {
            assert_eq!(
                post.labels,
                vec![Label::Hide, Label::Porn, Label::Other("spoiler".to_string())]
            );
        }
        other => panic!("unexpected outcome: {:?}", other),
    }
}

#[test]
fn unknown_labels_union_gives_no_labels() {
    let mut record = post_record("x");
    record.labels = Some(LabelsRecord::Unknown);
    let mut create = post_create("did:plc:abc", "1", "");
    create.record = Some(Record::Post(record));
    match normalize(&create) {
        Some(Event::PostCreated(post)) => assert!(post.labels.is_empty()),
        other => panic!("unexpected outcome: {:?}", other),
    }
}

#[test]
fn unknown_embed_union_gives_no_embed_but_keeps_the_post() {
    let mut record = post_record("x");
    record.embed = Some(EmbedRecord::Unknown);
    let mut create = post_create("did:plc:abc", "1", "");
    create.record = Some(Record::Post(record));
    match normalize(&create) {
        Some(Event::PostCreated(post)) => assert!(post.embed.is_none()),
        other => panic!("unexpected outcome: {:?}", other),
    }
}

#[test]
fn timestamp_out_of_calendar_range_discards_the_post() {
    let mut create = post_create("did:plc:abc", "1", "late");
    create.time_us = i64::MAX as u64;
    assert!(normalize(&create).is_none());
    let mut recorder = Recorder::new(Sink);
    assert!(!ingest(&mut recorder, &create));
    assert!(recorder.calls().is_empty());
}

#[test]
fn timestamp_above_signed_range_wraps_around() {
    assert_eq!(signed_micros(0), 0);
    assert_eq!(signed_micros(i64::MAX as u64), i64::MAX);
    assert_eq!(signed_micros(i64::MAX as u64 + 1), i64::MIN);
    assert_eq!(signed_micros(u64::MAX), -1);
    assert_eq!(calendar_micros(u64::MAX), Some(-1));
    assert_eq!(calendar_micros(NOW_US), Some(NOW_US as i64));
    assert_eq!(calendar_micros(i64::MAX as u64 + 1), None);
    let mut create = post_create("did:plc:abc", "1", "early");
    create.time_us = u64::MAX;
    match normalize(&create) {
        Some(Event::PostCreated(post)) => assert_eq!(post.timestamp, -1),
        other => panic!("unexpected outcome: {:?}", other),
    }
}

#[test]
fn post_create_without_content_hash_is_discarded() {
    let mut create = post_create("did:plc:abc", "1", "x");
    create.cid = None;
    assert!(normalize(&create).is_none());
}

#[test]
fn post_create_with_wrong_payload_is_discarded() {
    let mut create = post_create("did:plc:abc", "1", "x");
    create.record = Some(Record::Like(LikeRecord {
        subject: StrongRef { cid: "bafy".to_string(), uri: "at://x/y/z".to_string() },
    }));
    assert!(normalize(&create).is_none());
    create.record = Some(Record::Other);
    assert!(normalize(&create).is_none());
    create.record = None;
    assert!(normalize(&create).is_none());
}

#[test]
fn like_create_becomes_like_created() {
    let like = commit(
        Operation::Create,
        "app.bsky.feed.like",
        "did:plc:fan",
        "7",
        Some("bafylike"),
        Some(Record::Like(LikeRecord {
            subject: StrongRef {
                cid: "bafypost".to_string(),
                uri: "at://did:plc:abc/app.bsky.feed.post/1".to_string(),
            },
        })),
        NOW_US,
    );
    match normalize(&like) {
        Some(Event::LikeCreated(like_uri, subject)) => {
            assert_eq!(like_uri.0, "at://did:plc:fan/app.bsky.feed.like/7");
            assert_eq!(subject.0, "at://did:plc:abc/app.bsky.feed.post/1");
        }
        other => panic!("unexpected outcome: {:?}", other),
    }
    let mut recorder = Recorder::new(Sink);
    assert!(ingest(&mut recorder, &like));
    assert_eq!(
        recorder.calls(),
        &vec![Call::LikePost(
            uri("at://did:plc:fan/app.bsky.feed.like/7"),
            uri("at://did:plc:abc/app.bsky.feed.post/1")
        )]
    );
}

#[test]
fn like_create_needs_no_content_hash_and_no_valid_time() {
    let like = commit(
        Operation::Create,
        "app.bsky.feed.like",
        "did:plc:fan",
        "7",
        None,
        Some(Record::Like(LikeRecord {
            subject: StrongRef { cid: String::new(), uri: "at://a/b/c".to_string() },
        })),
        i64::MAX as u64,
    );
    assert!(matches!(normalize(&like), Some(Event::LikeCreated(_, _))));
}

#[test]
fn like_create_with_post_payload_is_discarded() {
    let like = commit(
        Operation::Create,
        "app.bsky.feed.like",
        "did:plc:fan",
        "7",
        Some("bafy"),
        Some(Record::Post(post_record("not a like"))),
        NOW_US,
    );
    assert!(normalize(&like).is_none());
}

#[test]
fn post_delete_deletes_exactly_once_even_if_never_inserted() {
    let delete = commit(Operation::Delete, "app.bsky.feed.post", "did:plc:abc", "9", None, None, 0);
    match normalize(&delete) {
        Some(Event::PostDeleted(uri)) => {
            assert_eq!(uri.0, "at://did:plc:abc/app.bsky.feed.post/9")
        }
        other => panic!("unexpected outcome: {:?}", other),
    }
    let mut recorder = Recorder::new(Sink);
    assert!(ingest(&mut recorder, &delete));
    assert_eq!(
        recorder.calls(),
        &vec![Call::DeletePost(uri("at://did:plc:abc/app.bsky.feed.post/9"))]
    );
}

#[test]
fn like_delete_becomes_like_deleted() {
    let delete = commit(
        Operation::Delete,
        "app.bsky.feed.like",
        "did:plc:fan",
        "7",
        None,
        None,
        u64::MAX,
    );
    match normalize(&delete) {
        Some(Event::LikeDeleted(uri)) => assert_eq!(uri.0, "at://did:plc:fan/app.bsky.feed.like/7"),
        other => panic!("unexpected outcome: {:?}", other),
    }
    let mut recorder = Recorder::new(Sink);
    assert!(ingest(&mut recorder, &delete));
    assert_eq!(
        recorder.calls(),
        &vec![Call::DeleteLike(uri("at://did:plc:fan/app.bsky.feed.like/7"))]
    );
}

#[test]
fn other_collections_and_updates_are_discarded() {
    let elsewhere =
        commit(Operation::Delete, "app.bsky.graph.follow", "did:plc:abc", "1", None, None, 0);
    assert!(normalize(&elsewhere).is_none());
    let created_elsewhere = commit(
        Operation::Create,
        "app.bsky.feed.repost",
        "did:plc:abc",
        "1",
        Some("bafy"),
        Some(Record::Post(post_record("x"))),
        NOW_US,
    );
    assert!(normalize(&created_elsewhere).is_none());
    let mut update = post_create("did:plc:abc", "1", "edited");
    update.operation = Operation::Update;
    assert!(normalize(&update).is_none());
    let almost = commit(Operation::Delete, "app.bsky.feed.posts", "did:plc:abc", "1", None, None, 0);
    assert!(normalize(&almost).is_none());
    let empty = commit(Operation::Delete, "", "", "", None, None, 0);
    assert!(normalize(&empty).is_none());
}

#[test]
fn empty_parts_still_give_an_identifier() {
    let delete = commit(Operation::Delete, "app.bsky.feed.post", "", "", None, None, 0);
    match normalize(&delete) {
        Some(Event::PostDeleted(uri)) => assert_eq!(uri.0, "at:///app.bsky.feed.post/"),
        other => panic!("unexpected outcome: {:?}", other),
    }
    assert_eq!(Uri::from_parts("a", "b", "c").0, "at://a/b/c");
}

#[test]
fn dispatch_calls_the_matching_operation() {
    let mut recorder = Recorder::new(Sink);
    dispatch(&mut recorder, Event::PostDeleted(uri("at://a/b/c")));
    dispatch(&mut recorder, Event::LikeDeleted(uri("at://d/e/f")));
    dispatch(&mut recorder, Event::LikeCreated(uri("at://g/h/i"), uri("at://a/b/c")));
    assert_eq!(
        recorder.calls(),
        &vec![
            Call::DeletePost(uri("at://a/b/c")),
            Call::DeleteLike(uri("at://d/e/f")),
            Call::LikePost(uri("at://g/h/i"), uri("at://a/b/c")),
        ]
    );
}

#[test]
fn ingestion_keeps_the_order_of_the_commits() {
    let commits = vec![
        post_create("did:plc:a", "1", "first"),
        commit(Operation::Update, "app.bsky.feed.post", "did:plc:a", "1", None, None, 0),
        post_create("did:plc:b", "2", "second"),
        commit(Operation::Delete, "app.bsky.feed.post", "did:plc:a", "1", None, None, 0),
        post_create("did:plc:c", "3", "third"),
    ];
    let mut recorder = Recorder::new(Sink);
    assert_eq!(ingest_all(&mut recorder, &commits), 4);
    assert_eq!(
        recorder.calls(),
        &vec![
            Call::InsertPost(uri("at://did:plc:a/app.bsky.feed.post/1")),
            Call::InsertPost(uri("at://did:plc:b/app.bsky.feed.post/2")),
            Call::DeletePost(uri("at://did:plc:a/app.bsky.feed.post/1")),
            Call::InsertPost(uri("at://did:plc:c/app.bsky.feed.post/3")),
        ]
    );
}

#[test]
fn recorder_hands_every_call_on() {
    let mut recorder = Recorder::new(skyfeed::list_handler::ListHandler::new(10));
    assert!(ingest(&mut recorder, &post_create("did:plc:a", "1", "first")));
    assert!(ingest(&mut recorder, &post_create("did:plc:b", "2", "second")));
    assert_eq!(recorder.inner().len(), 2);
    let page = recorder.serve_feed(Request { cursor: None, feed: String::new(), limit: None });
    assert_eq!(
        page.feed,
        vec![
            uri("at://did:plc:a/app.bsky.feed.post/1"),
            uri("at://did:plc:b/app.bsky.feed.post/2")
        ]
    );
    assert_eq!(recorder.calls().len(), 2);
    let inner = recorder.into_inner();
    assert_eq!(inner.len(), 2);
}

/// A small deterministic generator, so that the malformed commits are the same
/// on every run.
struct Lcg(u64);

impl Lcg {
    fn next(&mut self) -> u64 {
        self.0 = self.0.wrapping_mul(6364136223846793005).wrapping_add(1442695040888963407);
        self.0 >> 33
    }
}

fn malformed(random: &mut Lcg) -> CommitRecord {
    let junk = format!("junk{}", random.next() % 1000);
    match random.next() % 7 {
        0 => commit(Operation::Update, "app.bsky.feed.post", &junk, &junk, Some(&junk), None, 0),
        1 => commit(Operation::Create, &junk, &junk, &junk, Some(&junk), None, random.next()),
        2 => commit(Operation::Delete, &junk, &junk, &junk, None, None, random.next()),
        3 => commit(
            Operation::Create,
            "app.bsky.feed.post",
            &junk,
            &junk,
            None,
            Some(Record::Post(post_record(&junk))),
            NOW_US,
        ),
        4 => commit(
            Operation::Create,
            "app.bsky.feed.post",
            &junk,
            &junk,
            Some(&junk),
            Some(Record::Post(post_record(&junk))),
            i64::MAX as u64 - random.next() % 1000,
        ),
        5 => commit(
            Operation::Create,
            "app.bsky.feed.like",
            &junk,
            &junk,
            Some(&junk),
            Some(Record::Other),
            NOW_US,
        ),
        _ => commit(
            Operation::Create,
            "app.bsky.feed.post",
            &junk,
            &junk,
            Some(&junk),
            Some(Record::Like(LikeRecord {
                subject: StrongRef { cid: junk.clone(), uri: junk.clone() },
            })),
            NOW_US,
        ),
    }
}

#[test]
fn ten_thousand_malformed_commits_reach_no_handler() {
    let mut random = Lcg(42);
    let mut commits = Vec::new();
    for _ in 0..10_000 {
        commits.push(malformed(&mut random));
    }
    let mut recorder = Recorder::new(Sink);
    for commit in &commits {
        assert!(normalize(commit).is_none());
    }
    assert_eq!(ingest_all(&mut recorder, &commits), 0);
    assert!(recorder.calls().is_empty());
}

#[test]
fn invalid_timestamp_is_told_apart_from_other_discards() {
    let mut late = post_create("did:plc:abc", "1", "late");
    late.time_us = i64::MAX as u64;
    assert!(has_invalid_timestamp(&late));
    assert!(!has_invalid_timestamp(&post_create("did:plc:abc", "1", "on time")));
    let mut update = post_create("did:plc:abc", "1", "late");
    update.time_us = i64::MAX as u64;
    update.operation = Operation::Update;
    assert!(!has_invalid_timestamp(&update));
    let mut elsewhere = post_create("did:plc:abc", "1", "late");
    elsewhere.time_us = i64::MAX as u64;
    elsewhere.collection = "app.bsky.feed.like".to_string();
    assert!(!has_invalid_timestamp(&elsewhere));
    let mut without_hash = post_create("did:plc:abc", "1", "late");
    without_hash.time_us = i64::MAX as u64;
    without_hash.cid = None;
    assert!(!has_invalid_timestamp(&without_hash));
}
