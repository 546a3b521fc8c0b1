use vstd::prelude::*;

use crate::models::{FeedResult, FeedResultView, Post, PostView, Request, RequestView, Uri};

verus! {

/// A storage and ranking strategy behind a feed.
///
/// An implementation may say, with the five relations, what each of its
/// operations does to it; the operation's contract is that relation between
/// the handler before and after the call. A relation that an implementation
/// leaves as it is allows every outcome. A mutating call has the handler to
/// itself for as long as it runs.
pub trait FeedHandler {
    /// What `insert_post` may turn the handler into.
    open spec fn inserts(&self, post: PostView, after: &Self) -> bool {
        true
    }

    /// What `delete_post` may turn the handler into.
    open spec fn deletes(&self, uri: Seq<char>, after: &Self) -> bool {
        true
    }

    /// What `like_post` may turn the handler into.
    open spec fn likes(&self, like_uri: Seq<char>, liked_post_uri: Seq<char>, after: &Self) -> bool {
        true
    }

    /// What `delete_like` may turn the handler into.
    open spec fn unlikes(&self, like_uri: Seq<char>, after: &Self) -> bool {
        true
    }

    /// The pages that `serve_feed` may answer a request with.
    open spec fn serves(&self, request: RequestView, result: FeedResultView) -> bool {
        true
    }

    /// Takes a new post. The implementation decides whether to keep it.
    fn insert_post(&mut self, post: Post)
        ensures
            old(self).inserts(post.deep_view(), final(self)),
    ;

    /// Forgets a post.
    fn delete_post(&mut self, uri: Uri)
        ensures
            old(self).deletes(uri@, final(self)),
    ;

    /// Records that `like_uri` likes `liked_post_uri`.
    fn like_post(&mut self, like_uri: Uri, liked_post_uri: Uri)
        ensures
            old(self).likes(like_uri@, liked_post_uri@, final(self)),
    ;

    /// Forgets a like.
    fn delete_like(&mut self, like_uri: Uri)
        ensures
            old(self).unlikes(like_uri@, final(self)),
    ;

    /// Answers a query with one page.
    fn serve_feed(&self, request: Request) -> (result: FeedResult)
        ensures
            self.serves(request.deep_view(), result.deep_view()),
    ;
}

} // verus!
