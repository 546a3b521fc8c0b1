use vstd::prelude::*;
use vstd::string::StringExecFns;

use crate::config::Config;
use crate::feed_handler::FeedHandler;
use crate::models::{FeedResult, FeedResultView, PostView, Request};
use crate::normalizer::{
    is_post_create, is_post_delete, normalize, normalized, post_collection,
    post_create_is_post_created, post_delete_is_post_deleted, uri_text, Event, EventView,
};
use crate::record::CommitRecord;
use crate::utility_models::{
    DidDocument, FeedData, FeedGeneratorDescription, FeedSkeleton, SkeletonFeedPost, Service,
};

verus! {

/// Whether `after` is what the handler operation for `event` may make of
/// `before`.
pub open spec fn applied<H: FeedHandler>(before: &H, event: EventView, after: &H) -> bool {
    match event {
        EventView::PostCreated(post) => before.inserts(post, after),
        EventView::PostDeleted(uri) => before.deletes(uri, after),
        EventView::LikeCreated(like, subject) => before.likes(like, subject, after),
        EventView::LikeDeleted(like) => before.unlikes(like, after),
    }
}

/// Whether `after` is what ingesting `commit` may make of `before`: the
/// operation for the commit's event, or nothing at all for a commit that is
/// discarded.
pub open spec fn ingested<H: FeedHandler>(before: &H, commit: CommitRecord, after: &H) -> bool {
    match normalized(commit) {
        Some(event) => applied(before, event, after),
        None => *after == *before,
    }
}

/// Hands an event to the handler operation that it belongs to.
pub fn dispatch<H: FeedHandler>(handler: &mut H, event: Event)
    ensures
        applied(old(handler), event.deep_view(), final(handler)),
{
    match event {
        Event::PostCreated(post) => handler.insert_post(post),
        Event::PostDeleted(uri) => handler.delete_post(uri),
        Event::LikeCreated(like, subject) => handler.like_post(like, subject),
        Event::LikeDeleted(like) => handler.delete_like(like),
    }
}

/// Normalises a commit and dispatches its event. A discarded commit leaves
/// the handler as it was. Returns whether an event was dispatched.
pub fn ingest<H: FeedHandler>(handler: &mut H, commit: &CommitRecord) -> (dispatched: bool)
    ensures
        ingested(old(handler), *commit, final(handler)),
        dispatched == normalized(*commit) is Some,
{
    match normalize(commit) {
        Some(event) => {
            dispatch(handler, event);
            true
        },
        None => false,
    }
}

/// Whether `after` is what ingesting `commits` one after the other, in the
/// order of the list, may make of `before`.
pub open spec fn ingested_all<H: FeedHandler>(
    before: &H,
    commits: Seq<CommitRecord>,
    after: &H,
) -> bool
    decreases commits.len(),
{
    if commits.len() == 0 {
        *after == *before
    } else {
        exists|middle: H|
            #![trigger ingested(&middle, commits.last(), after)]
            ingested_all(before, commits.drop_last(), &middle) && ingested(
                &middle,
                commits.last(),
                after,
            )
    }
}

/// How many commits of a list stand for an event.
pub open spec fn recognised_count(commits: Seq<CommitRecord>) -> nat
    decreases commits.len(),
{
    if commits.len() == 0 {
        0
    } else {
        recognised_count(commits.drop_last()) + if normalized(commits.last()) is Some {
            1nat
        } else {
            0nat
        }
    }
}

/// Ingests commits one after the other, in the order of the list, each one
/// on what the one before it left. Returns how many of them were dispatched.
pub fn ingest_all<H: FeedHandler>(handler: &mut H, commits: &Vec<CommitRecord>) -> (dispatched:
    usize)
    ensures
        ingested_all(old(handler), commits@, final(handler)),
        dispatched == recognised_count(commits@),
{
    let mut dispatched: usize = 0;
    let mut i: usize = 0;
    while i < commits.len()
        invariant
            i <= commits.len(),
            dispatched <= i,
            dispatched == recognised_count(commits@.subrange(0, i as int)),
            ingested_all(old(handler), commits@.subrange(0, i as int), handler),
        decreases commits.len() - i,
    {
        let ghost middle = *handler;
        proof {
            assert(commits@.subrange(0, i + 1).drop_last() =~= commits@.subrange(0, i as int));
        }
        if ingest(handler, &commits[i]) {
            dispatched += 1;
        }
        proof {
            assert(ingested_all(old(handler), commits@.subrange(0, i + 1).drop_last(), &middle));
            assert(ingested(&middle, commits@.subrange(0, i + 1).last(), handler));
        }
        i += 1;
    }
    assert(commits@.subrange(0, commits.len() as int) =~= commits@);
    dispatched
}

/// Commits that are all discarded leave the handler as it was, however many
/// there are, and none of them counts as dispatched.
pub proof fn discarded_commits_change_nothing<H: FeedHandler>(
    before: &H,
    commits: Seq<CommitRecord>,
    after: &H,
)
    requires
        forall|i: int| 0 <= i < commits.len() ==> normalized(#[trigger] commits[i]) is None,
        ingested_all(before, commits, after),
    ensures
        *after == *before,
        recognised_count(commits) == 0,
    decreases commits.len(),
{
    if commits.len() > 0 {
        let middle = choose|middle: H|
            #![trigger ingested(&middle, commits.last(), after)]
            ingested_all(before, commits.drop_last(), &middle) && ingested(
                &middle,
                commits.last(),
                after,
            );
        assert forall|i: int| 0 <= i < commits.drop_last().len() implies normalized(
            #[trigger] commits.drop_last()[i],
        ) is None by {
            assert(commits.drop_last()[i] == commits[i]);
        }
        discarded_commits_change_nothing(before, commits.drop_last(), &middle);
        assert(normalized(commits[commits.len() - 1]) is None);
    }
}

/// Ingesting a well-formed post create does to the handler what its
/// `insert_post` does with a post whose identifier is
/// `at://<author>/app.bsky.feed.post/<rkey>`.
pub proof fn post_create_applies_insert<H: FeedHandler>(before: &H, commit: CommitRecord, after: &H)
    requires
        is_post_create(commit),
        ingested(before, commit, after),
    ensures
        exists|post: PostView|
            #![trigger before.inserts(post, after)]
            before.inserts(post, after) && post.uri == uri_text(
                commit.author@,
                post_collection(),
                commit.rkey@,
            ),
{
    post_create_is_post_created(commit);
    let post = normalized(commit)->Some_0->PostCreated_0;
    assert(before.inserts(post, after));
}

/// Ingesting a delete in the post collection does to the handler what its
/// `delete_post` does with `at://<author>/app.bsky.feed.post/<rkey>`, whether
/// or not that post was ever inserted.
pub proof fn post_delete_applies_delete<H: FeedHandler>(before: &H, commit: CommitRecord, after: &H)
    requires
        is_post_delete(commit),
        ingested(before, commit, after),
    ensures
        before.deletes(uri_text(commit.author@, post_collection(), commit.rkey@), after),
{
    post_delete_is_post_deleted(commit);
}

/// The page that a feed skeleton renders.
pub open spec fn skeleton_result(skeleton: FeedSkeleton) -> FeedResultView {
    FeedResultView {
        cursor: skeleton.cursor.deep_view(),
        feed: Seq::new(skeleton.feed@.len(), |i: int| skeleton.feed@[i].post@),
    }
}

/// Renders a page for the wire: the cursor as it is, and one item for each
/// identifier, in order.
pub fn render_skeleton(result: FeedResult) -> (skeleton: FeedSkeleton)
    ensures
        skeleton_result(skeleton) == result.deep_view(),
{
    let mut feed: Vec<SkeletonFeedPost> = Vec::new();
    let mut i: usize = 0;
    while i < result.feed.len()
        invariant
            i <= result.feed.len(),
            feed.len() == i,
            forall|k: int| 0 <= k < i ==> #[trigger] feed@[k].post@ == result.feed@[k]@,
        decreases result.feed.len() - i,
    {
        feed.push(SkeletonFeedPost { post: result.feed[i].0.clone() });
        i += 1;
    }
    let skeleton = FeedSkeleton { cursor: result.cursor, feed };
    assert(skeleton_result(skeleton).feed =~= result.deep_view().feed);
    skeleton
}

/// Answers a feed query: hands the request to the handler as it is and
/// renders the page that comes back.
pub fn get_feed_skeleton<H: FeedHandler>(query: Request, handler: &H) -> (skeleton: FeedSkeleton)
    ensures
        handler.serves(query.deep_view(), skeleton_result(skeleton)),
{
    render_skeleton(handler.serve_feed(query))
}

/// The identity of a feed generator served at `hostname`.
pub open spec fn did_web(hostname: Seq<char>) -> Seq<char> {
    "did:web:"@ + hostname
}

/// The discovery document of a feed generator: its identity is
/// `did:web:<hostname>` and its one service is the feed generator at
/// `https://<hostname>`.
pub fn did_json(config: &Config) -> (document: DidDocument)
    ensures
        document.context@.len() == 1,
        document.context@[0]@ == "https://www.w3.org/ns/did/v1"@,
        document.id@ == did_web(config.feed_generator_hostname@),
        document.service@.len() == 1,
        document.service@[0].id@ == "#bsky_fg"@,
        document.service@[0].type_@ == "BskyFeedGenerator"@,
        document.service@[0].service_endpoint@ == "https://"@ + config.feed_generator_hostname@,
{
    let mut context: Vec<String> = Vec::new();
    context.push(String::from_str("https://www.w3.org/ns/did/v1"));
    let mut service: Vec<Service> = Vec::new();
    service.push(
        Service {
            id: String::from_str("#bsky_fg"),
            type_: String::from_str("BskyFeedGenerator"),
            service_endpoint: String::from_str("https://").concat(
                config.feed_generator_hostname.as_str(),
            ),
        },
    );
    DidDocument {
        context,
        id: String::from_str("did:web:").concat(config.feed_generator_hostname.as_str()),
        service,
    }
}

/// The description of a feed generator that serves the one feed `feed_name`:
/// its identity, and the feed's identifier
/// `at://<publisher>/app.bsky.feed.generator/<feed_name>`.
pub fn describe_feed_generator(config: &Config, feed_name: &str) -> (description:
    FeedGeneratorDescription)
    ensures
        description.did@ == did_web(config.feed_generator_hostname@),
        description.feeds@.len() == 1,
        description.feeds@[0].uri@ == "at://"@ + config.publisher_did@
            + "/app.bsky.feed.generator/"@ + feed_name@,
{
    let mut uri = String::from_str("at://");
    uri.append(config.publisher_did.as_str());
    uri.append("/app.bsky.feed.generator/");
    uri.append(feed_name);
    let mut feeds: Vec<FeedData> = Vec::new();
    feeds.push(FeedData { uri });
    FeedGeneratorDescription {
        did: String::from_str("did:web:").concat(config.feed_generator_hostname.as_str()),
        feeds,
    }
}

} // verus!
