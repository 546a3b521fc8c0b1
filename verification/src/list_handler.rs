use vstd::prelude::*;

use crate::feed_handler::FeedHandler;
use crate::models::{FeedResult, FeedResultView, Post, PostView, Request, RequestView, Uri};
use crate::pagination::{page_of, paginate, pagination_closure, start_of, walk};

verus! {

/// A post that a [`ListHandler`] keeps, with the likes it has received.
#[derive(Debug)]
pub struct StoredPost {
    pub post: Post,
    pub likes: Vec<Uri>,
}

pub struct StoredPostView {
    pub post: PostView,
    pub likes: Seq<Seq<char>>,
}

impl DeepView for StoredPost {
    type V = StoredPostView;

    open spec fn deep_view(&self) -> StoredPostView {
        StoredPostView { post: self.post.deep_view(), likes: self.likes.deep_view() }
    }
}

/// The list after a new post: the post goes to the end without likes, and
/// where that makes the list longer than `capacity` the oldest post leaves.
pub open spec fn with_post(list: Seq<StoredPostView>, post: PostView, capacity: nat) -> Seq<
    StoredPostView,
> {
    let grown = list.push(StoredPostView { post, likes: Seq::empty() });
    if grown.len() > capacity {
        grown.drop_first()
    } else {
        grown
    }
}

/// The list without the posts that have the identifier `uri`, the others in
/// their order.
pub open spec fn without_post(list: Seq<StoredPostView>, uri: Seq<char>) -> Seq<StoredPostView>
    decreases list.len(),
{
    if list.len() == 0 {
        Seq::empty()
    } else if list.first().post.uri == uri {
        without_post(list.drop_first(), uri)
    } else {
        seq![list.first()] + without_post(list.drop_first(), uri)
    }
}

/// The position of the first post with the identifier `uri`, or the length
/// of the list where there is none.
pub open spec fn position_of(list: Seq<StoredPostView>, uri: Seq<char>) -> int
    decreases list.len(),
{
    if list.len() == 0 {
        0
    } else if list.first().post.uri == uri {
        0
    } else {
        1 + position_of(list.drop_first(), uri)
    }
}

/// The likes after `like` is added: unchanged where it is among them, and
/// otherwise with it at the end.
pub open spec fn likes_with(likes: Seq<Seq<char>>, like: Seq<char>) -> Seq<Seq<char>> {
    if likes.contains(like) {
        likes
    } else {
        likes.push(like)
    }
}

/// The list after `like` likes the post `liked`: the first post with that
/// identifier gains the like, and a like of a post that is not in the list
/// changes nothing.
pub open spec fn with_like(list: Seq<StoredPostView>, like: Seq<char>, liked: Seq<char>) -> Seq<
    StoredPostView,
> {
    let at = position_of(list, liked);
    if at < list.len() {
        list.update(
            at,
            StoredPostView { post: list[at].post, likes: likes_with(list[at].likes, like) },
        )
    } else {
        list
    }
}

/// The likes without `like`, the others in their order.
pub open spec fn likes_without(likes: Seq<Seq<char>>, like: Seq<char>) -> Seq<Seq<char>>
    decreases likes.len(),
{
    if likes.len() == 0 {
        Seq::empty()
    } else if likes.first() == like {
        likes_without(likes.drop_first(), like)
    } else {
        seq![likes.first()] + likes_without(likes.drop_first(), like)
    }
}

/// The list after `like` is withdrawn: no post has it any more.
pub open spec fn without_like(list: Seq<StoredPostView>, like: Seq<char>) -> Seq<StoredPostView> {
    Seq::new(
        list.len(),
        |i: int| StoredPostView { post: list[i].post, likes: likes_without(list[i].likes, like) },
    )
}

/// A sorted list with one more post: it goes behind every post that has at
/// least as many likes.
pub open spec fn placed(sorted: Seq<StoredPostView>, item: StoredPostView) -> Seq<StoredPostView>
    decreases sorted.len(),
{
    if sorted.len() == 0 || sorted.last().likes.len() >= item.likes.len() {
        sorted.push(item)
    } else {
        placed(sorted.drop_last(), item).push(sorted.last())
    }
}

/// The posts by falling number of likes; posts with equally many likes keep
/// the order in which they arrived.
pub open spec fn ranked(list: Seq<StoredPostView>) -> Seq<StoredPostView>
    decreases list.len(),
{
    if list.len() == 0 {
        Seq::empty()
    } else {
        placed(ranked(list.drop_last()), list.last())
    }
}

/// The identifiers of a list of posts, in order.
pub open spec fn uris_of(list: Seq<StoredPostView>) -> Seq<Seq<char>> {
    Seq::new(list.len(), |i: int| list[i].post.uri)
}

/// The number of items on a page: what the request asks for, and
/// [`ListHandler::DEFAULT_PAGE_SIZE`] where it asks for nothing.
pub open spec fn page_size_of(limit: Option<u8>) -> nat {
    match limit {
        Some(limit) => limit as nat,
        None => ListHandler::DEFAULT_PAGE_SIZE as nat,
    }
}

/// The page that answers a request on a list of posts.
pub open spec fn feed_of(list: Seq<StoredPostView>, request: RequestView) -> FeedResultView {
    page_of(uris_of(ranked(list)), start_of(request.cursor), page_size_of(request.limit))
}

/// A handler that keeps every post it is given in a list of bounded length,
/// oldest first, and serves them by falling number of likes.
#[derive(Debug)]
pub struct ListHandler {
    posts: Vec<StoredPost>,
    capacity: usize,
}

pub struct ListHandlerView {
    pub posts: Seq<StoredPostView>,
    pub capacity: nat,
}

impl DeepView for ListHandler {
    type V = ListHandlerView;

    closed spec fn deep_view(&self) -> ListHandlerView {
        ListHandlerView { posts: self.posts.deep_view(), capacity: self.capacity as nat }
    }
}

impl ListHandler {
    /// How many items a page has where the request does not say.
    pub const DEFAULT_PAGE_SIZE: u8 = 5;

    /// An empty handler that keeps at most `capacity` posts.
    pub fn new(capacity: usize) -> (handler: ListHandler)
        ensures
            handler.deep_view() == (ListHandlerView {
                posts: Seq::empty(),
                capacity: capacity as nat,
            }),
    {
        let handler = ListHandler { posts: Vec::new(), capacity };
        assert(handler.posts.deep_view() =~= Seq::empty());
        handler
    }

    /// How many posts the handler keeps.
    pub fn len(&self) -> (len: usize)
        ensures
            len == self.deep_view().posts.len(),
    {
        self.posts.len()
    }

    /// How many posts the handler keeps at most.
    pub fn capacity(&self) -> (capacity: usize)
        ensures
            capacity == self.deep_view().capacity,
    {
        self.capacity
    }

    /// The identifiers of the posts, by falling number of likes; posts with
    /// equally many likes come in the order in which they arrived.
    pub fn ranked_uris(&self) -> (uris: Vec<Uri>)
        ensures
            uris.deep_view() == uris_of(ranked(self.deep_view().posts)),
    {
        let order = rank(&self.posts);
        let ghost list = self.posts.deep_view();
        let mut uris: Vec<Uri> = Vec::new();
        let mut k: usize = 0;
        while k < order.len()
            invariant
                list == self.posts.deep_view(),
                k <= order@.len(),
                order@.len() == self.posts.len(),
                forall|j: int| 0 <= j < order@.len() ==> #[trigger] order@[j] < self.posts.len(),
                uris.len() == k,
                forall|j: int|
                    0 <= j < k ==> #[trigger] uris@[j]@ == list[order@[j] as int].post.uri,
            decreases order@.len() - k,
        {
            uris.push(Uri(self.posts[order[k]].post.uri.0.clone()));
            k += 1;
        }
        proof {
            let want = uris_of(picked(list, order@));
            assert(uris.deep_view().len() == want.len());
            assert forall|j: int| 0 <= j < want.len() implies uris.deep_view()[j] == want[j] by {
                assert(uris@[j]@ == list[order@[j] as int].post.uri);
            }
            assert(uris.deep_view() =~= want);
        }
        uris
    }
}

/// The posts that a list of positions picks out of a list of posts.
pub open spec fn picked(list: Seq<StoredPostView>, order: Seq<usize>) -> Seq<StoredPostView> {
    Seq::new(order.len(), |k: int| list[order[k] as int])
}

proof fn lemma_placed_at(sorted: Seq<StoredPostView>, item: StoredPostView, at: int)
    requires
        0 <= at <= sorted.len(),
        forall|k: int| at <= k < sorted.len() ==> (#[trigger] sorted[k]).likes.len() < item.likes.len(),
        at > 0 ==> sorted[at - 1].likes.len() >= item.likes.len(),
    ensures
        placed(sorted, item) == sorted.insert(at, item),
    decreases sorted.len(),
{
    if at == sorted.len() {
        assert(sorted.insert(at, item) =~= sorted.push(item));
    } else {
        let shorter = sorted.drop_last();
        assert(sorted.last() == sorted[sorted.len() - 1]);
        assert forall|k: int| at <= k < shorter.len() implies (#[trigger] shorter[k]).likes.len()
            < item.likes.len() by {
            assert(shorter[k] == sorted[k]);
        }
        if at > 0 {
            assert(shorter[at - 1] == sorted[at - 1]);
        }
        lemma_placed_at(shorter, item, at);
        assert(sorted.insert(at, item) =~= shorter.insert(at, item).push(sorted.last()));
    }
}

/// The positions of the posts, by falling number of likes, posts with equally
/// many likes in the order of the list.
fn rank(posts: &Vec<StoredPost>) -> (order: Vec<usize>)
    ensures
        order@.len() == posts.len(),
        forall|k: int| 0 <= k < order@.len() ==> #[trigger] order@[k] < posts.len(),
        picked(posts.deep_view(), order@) == ranked(posts.deep_view()),
{
    let ghost list = posts.deep_view();
    let mut order: Vec<usize> = Vec::new();
    let mut i: usize = 0;
    assert(picked(list, order@) =~= ranked(list.subrange(0, 0)));
    while i < posts.len()
        invariant
            list == posts.deep_view(),
            i <= posts.len(),
            order@.len() == i,
            forall|k: int| 0 <= k < order@.len() ==> #[trigger] order@[k] < i,
            picked(list, order@) == ranked(list.subrange(0, i as int)),
        decreases posts.len() - i,
    {
        let likes = posts[i].likes.len();
        let mut at: usize = order.len();
        while at > 0 && posts[order[at - 1]].likes.len() < likes
            invariant
                list == posts.deep_view(),
                i < posts.len(),
                likes == list[i as int].likes.len(),
                at <= order@.len(),
                forall|k: int| 0 <= k < order@.len() ==> #[trigger] order@[k] < i,
                forall|k: int|
                    at <= k < order@.len() ==> (#[trigger] picked(list, order@)[k]).likes.len()
                        < likes,
            decreases at,
        {
            assert(picked(list, order@)[at - 1] == list[order@[at - 1] as int]);
            at -= 1;
        }
        let ghost sorted = picked(list, order@);
        proof {
            if at > 0 {
                assert(sorted[at - 1] == list[order@[at - 1] as int]);
            }
            lemma_placed_at(sorted, list[i as int], at as int);
            let upto = list.subrange(0, i + 1);
            assert(upto.drop_last() =~= list.subrange(0, i as int));
            assert(upto.last() == list[i as int]);
        }
        order.insert(at, i);
        assert(picked(list, order@) =~= sorted.insert(at as int, list[i as int]));
        i += 1;
    }
    assert(list.subrange(0, posts.len() as int) =~= list);
    order
}

proof fn lemma_position_found(list: Seq<StoredPostView>, uri: Seq<char>, at: int)
    requires
        0 <= at <= list.len(),
        forall|k: int| 0 <= k < at ==> (#[trigger] list[k]).post.uri != uri,
        at < list.len() ==> list[at].post.uri == uri,
    ensures
        position_of(list, uri) == at,
    decreases list.len(),
{
    if list.len() > 0 && at > 0 {
        let rest = list.drop_first();
        assert(list.first() == list[0]);
        assert forall|k: int| 0 <= k < at - 1 implies (#[trigger] rest[k]).post.uri != uri by {
            assert(rest[k] == list[k + 1]);
        }
        if at < list.len() {
            assert(rest[at - 1] == list[at]);
        }
        lemma_position_found(rest, uri, at - 1);
    }
}

proof fn lemma_without_post_step(list: Seq<StoredPostView>, uri: Seq<char>, i: int)
    requires
        0 <= i < list.len(),
    ensures
        without_post(list.subrange(i, list.len() as int), uri) == if list[i].post.uri == uri {
            without_post(list.subrange(i + 1, list.len() as int), uri)
        } else {
            seq![list[i]] + without_post(list.subrange(i + 1, list.len() as int), uri)
        },
{
    let from = list.subrange(i, list.len() as int);
    assert(from.first() == list[i]);
    assert(from.drop_first() =~= list.subrange(i + 1, list.len() as int));
}

proof fn lemma_likes_without_step(likes: Seq<Seq<char>>, like: Seq<char>, i: int)
    requires
        0 <= i < likes.len(),
    ensures
        likes_without(likes.subrange(i, likes.len() as int), like) == if likes[i] == like {
            likes_without(likes.subrange(i + 1, likes.len() as int), like)
        } else {
            seq![likes[i]] + likes_without(likes.subrange(i + 1, likes.len() as int), like)
        },
{
    let from = likes.subrange(i, likes.len() as int);
    assert(from.first() == likes[i]);
    assert(from.drop_first() =~= likes.subrange(i + 1, likes.len() as int));
}

/// Whether `uri` is among `likes`.
fn has_like(likes: &Vec<Uri>, uri: &Uri) -> (found: bool)
    ensures
        found == likes.deep_view().contains(uri@),
{
    let mut i: usize = 0;
    while i < likes.len()
        invariant
            i <= likes.len(),
            forall|k: int| 0 <= k < i ==> #[trigger] likes.deep_view()[k] != uri@,
        decreases likes.len() - i,
    {
        if likes[i].0 == uri.0 {
            assert(likes.deep_view()[i as int] == uri@);
            return true;
        }
        i += 1;
    }
    false
}

/// Takes every occurrence of `like` out of `likes`.
fn remove_like(likes: &mut Vec<Uri>, like: &Uri)
    ensures
        final(likes).deep_view() == likes_without(old(likes).deep_view(), like@),
{
    let ghost before = likes.deep_view();
    let mut i: usize = 0;
    assert(likes.deep_view().subrange(0, 0) + likes_without(
        likes.deep_view().subrange(0, likes.len() as int),
        like@,
    ) =~= likes_without(before, like@)) by {
        assert(likes.deep_view().subrange(0, likes.len() as int) =~= before);
    }
    while i < likes.len()
        invariant
            i <= likes.len(),
            likes_without(before, like@) == likes.deep_view().subrange(0, i as int) + likes_without(
                likes.deep_view().subrange(i as int, likes.len() as int),
                like@,
            ),
        decreases likes.len() - i,
    {
        let ghost current = likes.deep_view();
        proof {
            lemma_likes_without_step(current, like@, i as int);
        }
        if likes[i].0 == like.0 {
            likes.remove(i);
            proof {
                let after = likes.deep_view();
                assert(after =~= current.remove(i as int));
                assert(after.subrange(0, i as int) =~= current.subrange(0, i as int));
                assert(after.subrange(i as int, after.len() as int) =~= current.subrange(
                    i + 1,
                    current.len() as int,
                ));
            }
        } else {
            proof {
                assert(current.subrange(0, i + 1) =~= current.subrange(0, i as int) + seq![
                    current[i as int],
                ]);
                assert(current.subrange(0, i + 1) + likes_without(
                    current.subrange(i + 1, current.len() as int),
                    like@,
                ) =~= current.subrange(0, i as int) + (seq![current[i as int]] + likes_without(
                    current.subrange(i + 1, current.len() as int),
                    like@,
                )));
            }
            i += 1;
        }
    }
    proof {
        let after = likes.deep_view();
        assert(after.subrange(after.len() as int, after.len() as int) =~= Seq::<
            Seq<char>,
        >::empty());
        assert(after.subrange(0, after.len() as int) + Seq::<Seq<char>>::empty() =~= after);
    }
}

impl FeedHandler for ListHandler {
    open spec fn inserts(&self, post: PostView, after: &Self) -> bool {
        after.deep_view() == (ListHandlerView {
            posts: with_post(self.deep_view().posts, post, self.deep_view().capacity),
            capacity: self.deep_view().capacity,
        })
    }

    open spec fn deletes(&self, uri: Seq<char>, after: &Self) -> bool {
        after.deep_view() == (ListHandlerView {
            posts: without_post(self.deep_view().posts, uri),
            capacity: self.deep_view().capacity,
        })
    }

    open spec fn likes(&self, like_uri: Seq<char>, liked_post_uri: Seq<char>, after: &Self) -> bool {
        after.deep_view() == (ListHandlerView {
            posts: with_like(self.deep_view().posts, like_uri, liked_post_uri),
            capacity: self.deep_view().capacity,
        })
    }

    open spec fn unlikes(&self, like_uri: Seq<char>, after: &Self) -> bool {
        after.deep_view() == (ListHandlerView {
            posts: without_like(self.deep_view().posts, like_uri),
            capacity: self.deep_view().capacity,
        })
    }

    open spec fn serves(&self, request: RequestView, result: FeedResultView) -> bool {
        result == feed_of(self.deep_view().posts, request)
    }

    /// Keeps the post, and lets the oldest one go where the list is full.
    fn insert_post(&mut self, post: Post) {
        let ghost before = self.posts.deep_view();
        let ghost stored = StoredPostView { post: post.deep_view(), likes: Seq::empty() };
        let likes: Vec<Uri> = Vec::new();
        assert(likes.deep_view() =~= Seq::<Seq<char>>::empty());
        self.posts.push(StoredPost { post, likes });
        assert(self.posts.deep_view() =~= before.push(stored));
        if self.posts.len() > self.capacity {
            self.posts.remove(0);
            assert(self.posts.deep_view() =~= before.push(stored).drop_first());
        }
    }

    /// Drops every post with that identifier; an unknown one changes nothing.
    fn delete_post(&mut self, uri: Uri) {
        let ghost before = self.posts.deep_view();
        let ghost capacity = self.capacity;
        let mut i: usize = 0;
        assert(self.posts.deep_view().subrange(0, 0) + without_post(
            self.posts.deep_view().subrange(0, self.posts.len() as int),
            uri@,
        ) =~= without_post(before, uri@)) by {
            assert(self.posts.deep_view().subrange(0, self.posts.len() as int) =~= before);
        }
        while i < self.posts.len()
            invariant
                self.capacity == capacity,
                i <= self.posts.len(),
                without_post(before, uri@) == self.posts.deep_view().subrange(0, i as int)
                    + without_post(
                    self.posts.deep_view().subrange(i as int, self.posts.len() as int),
                    uri@,
                ),
            decreases self.posts.len() - i,
        {
            let ghost current = self.posts.deep_view();
            proof {
                lemma_without_post_step(current, uri@, i as int);
            }
            if self.posts[i].post.uri.0 == uri.0 {
                self.posts.remove(i);
                proof {
                    let after = self.posts.deep_view();
                    assert(after =~= current.remove(i as int));
                    assert(after.subrange(0, i as int) =~= current.subrange(0, i as int));
                    assert(after.subrange(i as int, after.len() as int) =~= current.subrange(
                        i + 1,
                        current.len() as int,
                    ));
                }
            } else {
                proof {
                    assert(current.subrange(0, i + 1) =~= current.subrange(0, i as int) + seq![
                        current[i as int],
                    ]);
                    assert(current.subrange(0, i + 1) + without_post(
                        current.subrange(i + 1, current.len() as int),
                        uri@,
                    ) =~= current.subrange(0, i as int) + (seq![current[i as int]] + without_post(
                        current.subrange(i + 1, current.len() as int),
                        uri@,
                    )));
                }
                i += 1;
            }
        }
        proof {
            let after = self.posts.deep_view();
            assert(after.subrange(after.len() as int, after.len() as int) =~= Seq::<
                StoredPostView,
            >::empty());
            assert(after.subrange(0, after.len() as int) + Seq::<StoredPostView>::empty()
                =~= after);
        }
    }

    /// Adds the like to the first post with that identifier, unless the post
    /// has it already. A like of a post that is not kept is ignored.
    fn like_post(&mut self, like_uri: Uri, liked_post_uri: Uri) {
        let ghost before = self.posts.deep_view();
        let mut at: usize = 0;
        while at < self.posts.len() && !(self.posts[at].post.uri.0 == liked_post_uri.0)
            invariant
                at <= self.posts.len(),
                self.posts.deep_view() == before,
                self.capacity == old(self).capacity,
                forall|k: int| 0 <= k < at ==> (#[trigger] before[k]).post.uri != liked_post_uri@,
            decreases self.posts.len() - at,
        {
            at += 1;
        }
        proof {
            lemma_position_found(before, liked_post_uri@, at as int);
        }
        if at < self.posts.len() {
            if !has_like(&self.posts[at].likes, &like_uri) {
                let mut stored = self.posts.remove(at);
                let ghost likes = stored.likes.deep_view();
                stored.likes.push(like_uri);
                assert(stored.likes.deep_view() =~= likes.push(like_uri@));
                self.posts.insert(at, stored);
            }
            assert(self.posts.deep_view() =~= with_like(before, like_uri@, liked_post_uri@));
        }
    }

    /// Takes the like away from every post that has it.
    fn delete_like(&mut self, like_uri: Uri) {
        let ghost before = self.posts.deep_view();
        let mut i: usize = 0;
        while i < self.posts.len()
            invariant
                i <= self.posts.len(),
                self.capacity == old(self).capacity,
                self.posts.len() == before.len(),
                forall|k: int|
                    0 <= k < i ==> #[trigger] self.posts.deep_view()[k] == without_like(
                        before,
                        like_uri@,
                    )[k],
                forall|k: int|
                    i <= k < before.len() ==> #[trigger] self.posts.deep_view()[k] == before[k],
            decreases self.posts.len() - i,
        {
            let ghost current = self.posts.deep_view();
            let mut stored = self.posts.remove(i);
            remove_like(&mut stored.likes, &like_uri);
            self.posts.insert(i, stored);
            proof {
                let after = self.posts.deep_view();
                assert(after.len() == current.len());
                assert forall|k: int| 0 <= k < after.len() && k != i implies after[k]
                    == current[k] by {}
                assert(after[i as int].post == current[i as int].post);
            }
            i += 1;
        }
        assert(self.posts.deep_view() =~= without_like(before, like_uri@));
    }

    /// Serves one page of the posts, ranked by falling number of likes.
    fn serve_feed(&self, request: Request) -> (result: FeedResult) {
        let size: usize = match request.limit {
            Some(limit) => limit.get() as usize,
            None => ListHandler::DEFAULT_PAGE_SIZE as usize,
        };
        let uris = self.ranked_uris();
        paginate(&uris, &request.cursor, size)
    }
}

proof fn lemma_placed_holds_all(sorted: Seq<StoredPostView>, item: StoredPostView)
    ensures
        placed(sorted, item).len() == sorted.len() + 1,
        placed(sorted, item).to_multiset() == sorted.to_multiset().insert(item),
    decreases sorted.len(),
{
    broadcast use vstd::seq_lib::to_multiset_build;

    if sorted.len() == 0 || sorted.last().likes.len() >= item.likes.len() {
    } else {
        let shorter = sorted.drop_last();
        lemma_placed_holds_all(shorter, item);
        assert(sorted =~= shorter.push(sorted.last()));
        assert(placed(sorted, item).to_multiset() =~= sorted.to_multiset().insert(item));
    }
}

proof fn lemma_placed_keeps_order(sorted: Seq<StoredPostView>, item: StoredPostView, least: nat)
    requires
        is_ranked(sorted),
        item.likes.len() >= least,
        forall|k: int| 0 <= k < sorted.len() ==> (#[trigger] sorted[k]).likes.len() >= least,
    ensures
        is_ranked(placed(sorted, item)),
        placed(sorted, item).len() == sorted.len() + 1,
        forall|k: int|
            0 <= k < sorted.len() + 1 ==> (#[trigger] placed(sorted, item)[k]).likes.len() >= least,
    decreases sorted.len(),
{
    if sorted.len() == 0 || sorted.last().likes.len() >= item.likes.len() {
        let result = sorted.push(item);
        assert forall|a: int, b: int| 0 <= a < b < result.len() implies (#[trigger] result[a]).likes.len()
            >= (#[trigger] result[b]).likes.len() by {
            assert(result[a] == sorted[a]);
            if b < sorted.len() {
                assert(result[b] == sorted[b]);
            } else {
                assert(sorted[a].likes.len() >= sorted[sorted.len() - 1].likes.len());
            }
        }
        assert forall|k: int| 0 <= k < sorted.len() + 1 implies (#[trigger] result[k]).likes.len()
            >= least by {
            if k < sorted.len() {
                assert(result[k] == sorted[k]);
            }
        }
    } else {
        let shorter = sorted.drop_last();
        let last = sorted.last();
        assert(last == sorted[sorted.len() - 1]);
        assert forall|a: int, b: int| 0 <= a < b < shorter.len() implies (#[trigger] shorter[a]).likes.len()
            >= (#[trigger] shorter[b]).likes.len() by {
            assert(shorter[a] == sorted[a] && shorter[b] == sorted[b]);
        }
        assert forall|k: int| 0 <= k < shorter.len() implies (#[trigger] shorter[k]).likes.len()
            >= last.likes.len() by {
            assert(shorter[k] == sorted[k]);
            assert(sorted[k].likes.len() >= sorted[sorted.len() - 1].likes.len());
        }
        lemma_placed_keeps_order(shorter, item, last.likes.len());
        let inner = placed(shorter, item);
        let result = inner.push(last);
        assert forall|a: int, b: int| 0 <= a < b < result.len() implies (#[trigger] result[a]).likes.len()
            >= (#[trigger] result[b]).likes.len() by {
            assert(result[a] == inner[a]);
            if b < inner.len() {
                assert(result[b] == inner[b]);
            } else {
                assert(result[b] == last);
            }
        }
        assert forall|k: int| 0 <= k < sorted.len() + 1 implies (#[trigger] result[k]).likes.len()
            >= least by {
            if k < inner.len() {
                assert(result[k] == inner[k]);
            }
        }
    }
}

/// Whether a list of posts goes by falling number of likes.
pub open spec fn is_ranked(list: Seq<StoredPostView>) -> bool {
    forall|a: int, b: int|
        0 <= a < b < list.len() ==> (#[trigger] list[a]).likes.len() >= (#[trigger] list[b]).likes.len()
}

/// The ranking holds every post of the list exactly once.
pub proof fn ranking_holds_every_post_once(list: Seq<StoredPostView>)
    ensures
        ranked(list).len() == list.len(),
        ranked(list).to_multiset() == list.to_multiset(),
    decreases list.len(),
{
    broadcast use vstd::seq_lib::to_multiset_build;

    if list.len() > 0 {
        ranking_holds_every_post_once(list.drop_last());
        lemma_placed_holds_all(ranked(list.drop_last()), list.last());
        assert(list =~= list.drop_last().push(list.last()));
    } else {
        assert(ranked(list) =~= list);
    }
}

/// The ranking goes by falling number of likes.
pub proof fn ranking_is_ranked(list: Seq<StoredPostView>)
    ensures
        is_ranked(ranked(list)),
    decreases list.len(),
{
    if list.len() > 0 {
        ranking_is_ranked(list.drop_last());
        lemma_placed_keeps_order(ranked(list.drop_last()), list.last(), 0);
    }
}

/// Deleting a post that is not in the list leaves the list as it was.
pub proof fn unknown_delete_changes_nothing(list: Seq<StoredPostView>, uri: Seq<char>)
    requires
        forall|k: int| 0 <= k < list.len() ==> (#[trigger] list[k]).post.uri != uri,
    ensures
        without_post(list, uri) == list,
    decreases list.len(),
{
    if list.len() > 0 {
        let rest = list.drop_first();
        assert(list.first() == list[0]);
        assert forall|k: int| 0 <= k < rest.len() implies (#[trigger] rest[k]).post.uri != uri by {
            assert(rest[k] == list[k + 1]);
        }
        unknown_delete_changes_nothing(rest, uri);
        assert(seq![list.first()] + rest =~= list);
    } else {
        assert(without_post(list, uri) =~= list);
    }
}

proof fn lemma_absent_like(likes: Seq<Seq<char>>, like: Seq<char>)
    requires
        !likes.contains(like),
    ensures
        likes_without(likes, like) == likes,
    decreases likes.len(),
{
    if likes.len() > 0 {
        let rest = likes.drop_first();
        assert(likes.first() == likes[0]);
        assert(!rest.contains(like)) by {
            if rest.contains(like) {
                let k = choose|k: int| 0 <= k < rest.len() && rest[k] == like;
                assert(likes[k + 1] == like);
            }
        }
        lemma_absent_like(rest, like);
        assert(seq![likes.first()] + rest =~= likes);
    } else {
        assert(likes_without(likes, like) =~= likes);
    }
}

/// Withdrawing a like that no post has leaves the list as it was.
pub proof fn unknown_unlike_changes_nothing(list: Seq<StoredPostView>, like: Seq<char>)
    requires
        forall|k: int| 0 <= k < list.len() ==> !(#[trigger] list[k]).likes.contains(like),
    ensures
        without_like(list, like) == list,
{
    assert forall|k: int| 0 <= k < list.len() implies without_like(list, like)[k] == list[k] by {
        lemma_absent_like(list[k].likes, like);
    }
    assert(without_like(list, like) =~= list);
}

/// A like of a post that is not in the list leaves the list, and with it
/// every page, as it was.
pub proof fn dangling_like_changes_nothing(
    list: Seq<StoredPostView>,
    like: Seq<char>,
    liked: Seq<char>,
    request: RequestView,
)
    requires
        forall|k: int| 0 <= k < list.len() ==> (#[trigger] list[k]).post.uri != liked,
    ensures
        with_like(list, like, liked) == list,
        feed_of(with_like(list, like, liked), request) == feed_of(list, request),
{
    lemma_position_found(list, liked, list.len() as int);
}

/// With the posts unchanged, fetching pages from the start, each request with
/// the cursor that the page before it returned, gives the identifier of
/// every post exactly once, in ranking order, and ends with an absent cursor.
pub proof fn feed_enumerates_every_post_once(
    list: Seq<StoredPostView>,
    limit: Option<u8>,
    rounds: nat,
)
    requires
        limit matches Some(size) ==> size >= 1,
        list.len() <= usize::MAX,
        rounds > list.len(),
    ensures
        walk(uris_of(ranked(list)), None, page_size_of(limit), rounds) == (
            uris_of(ranked(list)),
            None::<Seq<char>>,
        ),
        uris_of(ranked(list)).len() == list.len(),
        ranked(list).to_multiset() == list.to_multiset(),
{
    ranking_holds_every_post_once(list);
    pagination_closure(uris_of(ranked(list)), page_size_of(limit), rounds);
}

} // verus!
