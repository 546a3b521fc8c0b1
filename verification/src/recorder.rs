use vstd::prelude::*;

use crate::feed::{discarded_commits_change_nothing, ingested, ingested_all};
use crate::feed_handler::FeedHandler;
use crate::models::{FeedResult, FeedResultView, Post, PostView, Request, RequestView, Uri};
use crate::normalizer::{
    collections_differ, is_like_create, is_like_delete, is_post_create, is_post_delete,
    like_collection, normalized, post_collection, post_create_is_post_created, uri_text,
    EventView,
};
use crate::record::{CommitRecord, Record};

verus! {

/// One mutating call that a handler received, with the identifiers it was
/// given.
#[derive(Debug, Clone, PartialEq, Eq)]
pub enum Call {
    InsertPost(Uri),
    DeletePost(Uri),
    LikePost(Uri, Uri),
    DeleteLike(Uri),
}

pub enum CallView {
    InsertPost(Seq<char>),
    DeletePost(Seq<char>),
    LikePost(Seq<char>, Seq<char>),
    DeleteLike(Seq<char>),
}

impl DeepView for Call {
    type V = CallView;

    open spec fn deep_view(&self) -> CallView {
        match self {
            Call::InsertPost(uri) => CallView::InsertPost(uri@),
            Call::DeletePost(uri) => CallView::DeletePost(uri@),
            Call::LikePost(like, liked) => CallView::LikePost(like@, liked@),
            Call::DeleteLike(like) => CallView::DeleteLike(like@),
        }
    }
}

/// The call that an event leads to.
pub open spec fn call_of(event: EventView) -> CallView {
    match event {
        EventView::PostCreated(post) => CallView::InsertPost(post.uri),
        EventView::PostDeleted(uri) => CallView::DeletePost(uri),
        EventView::LikeCreated(like, liked) => CallView::LikePost(like, liked),
        EventView::LikeDeleted(like) => CallView::DeleteLike(like),
    }
}

/// The calls that a list of commits leads to: one for each commit that
/// stands for an event, in the order of the commits.
pub open spec fn calls_of(commits: Seq<CommitRecord>) -> Seq<CallView>
    decreases commits.len(),
{
    if commits.len() == 0 {
        Seq::empty()
    } else {
        let before = calls_of(commits.drop_last());
        match normalized(commits.last()) {
            Some(event) => before.push(call_of(event)),
            None => before,
        }
    }
}

/// A handler that hands every call on to the handler it wraps and keeps a
/// journal of the mutating calls it received, in the order in which they
/// came.
#[derive(Debug)]
pub struct Recorder<H> {
    inner: H,
    calls: Vec<Call>,
}

impl<H> Recorder<H> {
    /// The journal: the mutating calls received so far, oldest first.
    pub closed spec fn journal(&self) -> Seq<CallView> {
        self.calls.deep_view()
    }

    /// The handler that the calls are handed on to.
    pub closed spec fn wrapped(&self) -> &H {
        &self.inner
    }

    /// A recorder around `inner` with an empty journal.
    pub fn new(inner: H) -> (recorder: Recorder<H>)
        ensures
            recorder.journal() == Seq::<CallView>::empty(),
            *recorder.wrapped() == inner,
    {
        let recorder = Recorder { inner, calls: Vec::new() };
        assert(recorder.calls.deep_view() =~= Seq::<CallView>::empty());
        recorder
    }

    /// The mutating calls received so far, oldest first.
    pub fn calls(&self) -> (calls: &Vec<Call>)
        ensures
            calls.deep_view() == self.journal(),
    {
        &self.calls
    }

    /// The handler that the calls are handed on to.
    pub fn inner(&self) -> (inner: &H)
        ensures
            inner == self.wrapped(),
    {
        &self.inner
    }

    /// Gives the wrapped handler back.
    pub fn into_inner(self) -> (inner: H)
        ensures
            inner == *self.wrapped(),
    {
        self.inner
    }
}

impl<H: FeedHandler> FeedHandler for Recorder<H> {
    open spec fn inserts(&self, post: PostView, after: &Self) -> bool {
        &&& self.wrapped().inserts(post, after.wrapped())
        &&& after.journal() == self.journal().push(CallView::InsertPost(post.uri))
    }

    open spec fn deletes(&self, uri: Seq<char>, after: &Self) -> bool {
        &&& self.wrapped().deletes(uri, after.wrapped())
        &&& after.journal() == self.journal().push(CallView::DeletePost(uri))
    }

    open spec fn likes(&self, like_uri: Seq<char>, liked_post_uri: Seq<char>, after: &Self) -> bool {
        &&& self.wrapped().likes(like_uri, liked_post_uri, after.wrapped())
        &&& after.journal() == self.journal().push(CallView::LikePost(like_uri, liked_post_uri))
    }

    open spec fn unlikes(&self, like_uri: Seq<char>, after: &Self) -> bool {
        &&& self.wrapped().unlikes(like_uri, after.wrapped())
        &&& after.journal() == self.journal().push(CallView::DeleteLike(like_uri))
    }

    open spec fn serves(&self, request: RequestView, result: FeedResultView) -> bool {
        self.wrapped().serves(request, result)
    }

    fn insert_post(&mut self, post: Post) {
        let ghost journal = self.calls.deep_view();
        let call = Call::InsertPost(Uri(post.uri.0.clone()));
        self.calls.push(call);
        assert(self.calls.deep_view() =~= journal.push(CallView::InsertPost(post.uri@)));
        self.inner.insert_post(post);
    }

    fn delete_post(&mut self, uri: Uri) {
        let ghost journal = self.calls.deep_view();
        let call = Call::DeletePost(Uri(uri.0.clone()));
        self.calls.push(call);
        assert(self.calls.deep_view() =~= journal.push(CallView::DeletePost(uri@)));
        self.inner.delete_post(uri);
    }

    fn like_post(&mut self, like_uri: Uri, liked_post_uri: Uri) {
        let ghost journal = self.calls.deep_view();
        let call = Call::LikePost(Uri(like_uri.0.clone()), Uri(liked_post_uri.0.clone()));
        self.calls.push(call);
        assert(self.calls.deep_view() =~= journal.push(
            CallView::LikePost(like_uri@, liked_post_uri@),
        ));
        self.inner.like_post(like_uri, liked_post_uri);
    }

    fn delete_like(&mut self, like_uri: Uri) {
        let ghost journal = self.calls.deep_view();
        let call = Call::DeleteLike(Uri(like_uri.0.clone()));
        self.calls.push(call);
        assert(self.calls.deep_view() =~= journal.push(CallView::DeleteLike(like_uri@)));
        self.inner.delete_like(like_uri);
    }

    fn serve_feed(&self, request: Request) -> (result: FeedResult) {
        self.inner.serve_feed(request)
    }
}

/// Ingesting one commit adds to the journal the one call that the commit
/// leads to, and nothing for a commit that is discarded.
pub proof fn ingest_records_its_call<H: FeedHandler>(
    before: &Recorder<H>,
    commit: CommitRecord,
    after: &Recorder<H>,
)
    requires
        ingested(before, commit, after),
    ensures
        after.journal() == match normalized(commit) {
            Some(event) => before.journal().push(call_of(event)),
            None => before.journal(),
        },
{
}

/// Ingesting a list of commits adds to the journal exactly the calls that
/// the commits lead to, each once, in the order in which the commits came.
pub proof fn ingestion_keeps_order<H: FeedHandler>(
    before: &Recorder<H>,
    commits: Seq<CommitRecord>,
    after: &Recorder<H>,
)
    requires
        ingested_all(before, commits, after),
    ensures
        after.journal() == before.journal() + calls_of(commits),
    decreases commits.len(),
{
    if commits.len() > 0 {
        let middle = choose|middle: Recorder<H>|
            #![trigger ingested(&middle, commits.last(), after)]
            ingested_all(before, commits.drop_last(), &middle) && ingested(
                &middle,
                commits.last(),
                after,
            );
        ingestion_keeps_order(before, commits.drop_last(), &middle);
        ingest_records_its_call(&middle, commits.last(), after);
        assert(after.journal() =~= before.journal() + calls_of(commits));
    } else {
        assert(after.journal() =~= before.journal() + calls_of(commits));
    }
}

/// A well-formed create in the post collection by author `A` under record
/// key `K` leads to exactly one call, `insert_post`, with the identifier
/// `at://A/app.bsky.feed.post/K`.
pub proof fn post_create_is_one_insert<H: FeedHandler>(
    before: &Recorder<H>,
    commit: CommitRecord,
    after: &Recorder<H>,
)
    requires
        is_post_create(commit),
        ingested(before, commit, after),
    ensures
        after.journal() == before.journal().push(
            CallView::InsertPost(uri_text(commit.author@, post_collection(), commit.rkey@)),
        ),
{
    post_create_is_post_created(commit);
}

/// A delete in the post collection leads to exactly one call, `delete_post`,
/// with the identifier built from the commit's author and record key,
/// whether or not a post with that identifier was ever inserted.
pub proof fn post_delete_is_one_delete<H: FeedHandler>(
    before: &Recorder<H>,
    commit: CommitRecord,
    after: &Recorder<H>,
)
    requires
        is_post_delete(commit),
        ingested(before, commit, after),
    ensures
        after.journal() == before.journal().push(
            CallView::DeletePost(uri_text(commit.author@, post_collection(), commit.rkey@)),
        ),
{
}

/// A create in the like collection leads to exactly one call, `like_post`,
/// with the like's identifier and the identifier of its subject; a delete
/// there leads to exactly one call, `delete_like`.
pub proof fn like_commits_are_one_call<H: FeedHandler>(
    before: &Recorder<H>,
    commit: CommitRecord,
    after: &Recorder<H>,
)
    requires
        ingested(before, commit, after),
    ensures
        is_like_create(commit) ==> match commit.record {
            Some(Record::Like(like)) => after.journal() == before.journal().push(
                CallView::LikePost(
                    uri_text(commit.author@, like_collection(), commit.rkey@),
                    like.subject.uri@,
                ),
            ),
            _ => false,
        },
        is_like_delete(commit) ==> after.journal() == before.journal().push(
            CallView::DeleteLike(uri_text(commit.author@, like_collection(), commit.rkey@)),
        ),
{
    collections_differ();
}

/// Commits that are all discarded lead to no call at all, however many they
/// are.
pub proof fn discarded_commits_lead_to_no_call<H: FeedHandler>(
    before: &Recorder<H>,
    commits: Seq<CommitRecord>,
    after: &Recorder<H>,
)
    requires
        forall|i: int| 0 <= i < commits.len() ==> normalized(#[trigger] commits[i]) is None,
        ingested_all(before, commits, after),
    ensures
        after.journal() == before.journal(),
        calls_of(commits) == Seq::<CallView>::empty(),
    decreases commits.len(),
{
    discarded_commits_change_nothing(before, commits, after);
    lemma_no_calls(commits);
}

proof fn lemma_no_calls(commits: Seq<CommitRecord>)
    requires
        forall|i: int| 0 <= i < commits.len() ==> normalized(#[trigger] commits[i]) is None,
    ensures
        calls_of(commits) == Seq::<CallView>::empty(),
    decreases commits.len(),
{
    if commits.len() > 0 {
        assert forall|i: int| 0 <= i < commits.drop_last().len() implies normalized(
            #[trigger] commits.drop_last()[i],
        ) is None by {
            assert(commits.drop_last()[i] == commits[i]);
        }
        lemma_no_calls(commits.drop_last());
        assert(normalized(commits[commits.len() - 1]) is None);
    }
}

} // verus!
