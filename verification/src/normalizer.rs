use vstd::prelude::*;
use vstd::string::StringExecFns;

use crate::embed::{embed_of, labels_of};
use crate::models::{Cid, Embed, EmbedView, Label, LabelView, Post, PostView, Uri};
use crate::record::{CommitRecord, EmbedRecord, LabelsRecord, Operation, PostRecord, Record};
use crate::text::text_is;
use crate::trusted::{calendar_time_exists, is_calendar_micros, json_text, to_json_text};

verus! {

/// What a commit means to a handler.
#[derive(Debug, Clone)]
pub enum Event {
    PostCreated(Post),
    PostDeleted(Uri),
    LikeCreated(Uri, Uri),
    LikeDeleted(Uri),
}

pub enum EventView {
    PostCreated(PostView),
    PostDeleted(Seq<char>),
    LikeCreated(Seq<char>, Seq<char>),
    LikeDeleted(Seq<char>),
}

impl DeepView for Event {
    type V = EventView;

    open spec fn deep_view(&self) -> EventView {
        match self {
            Event::PostCreated(post) => EventView::PostCreated(post.deep_view()),
            Event::PostDeleted(uri) => EventView::PostDeleted(uri@),
            Event::LikeCreated(like, subject) => EventView::LikeCreated(like@, subject@),
            Event::LikeDeleted(like) => EventView::LikeDeleted(like@),
        }
    }
}

/// The name of the collection that holds posts.
pub open spec fn post_collection() -> Seq<char> {
    "app.bsky.feed.post"@
}

/// The name of the collection that holds likes.
pub open spec fn like_collection() -> Seq<char> {
    "app.bsky.feed.like"@
}

/// The identifier of the record that `author` keeps in `collection` under
/// `rkey`: `at://<author>/<collection>/<rkey>`.
pub open spec fn uri_text(author: Seq<char>, collection: Seq<char>, rkey: Seq<char>) -> Seq<char> {
    "at://"@ + author + "/"@ + collection + "/"@ + rkey
}

/// The signed number of microseconds that an event's unsigned timestamp
/// stands for: values above the largest signed one wrap around to negative
/// ones.
pub open spec fn micros_of(time_us: u64) -> int {
    if time_us <= i64::MAX {
        time_us as int
    } else {
        time_us - 0x1_0000_0000_0000_0000
    }
}

/// The calendar time of an event, where its timestamp denotes one.
pub open spec fn calendar_micros_of(time_us: u64) -> Option<int> {
    if is_calendar_micros(micros_of(time_us)) {
        Some(micros_of(time_us))
    } else {
        None
    }
}

/// The texts that are there, in order.
pub open spec fn present_texts_of(texts: Seq<Option<Seq<char>>>) -> Seq<Seq<char>>
    decreases texts.len(),
{
    if texts.len() == 0 {
        Seq::empty()
    } else {
        let before = present_texts_of(texts.drop_last());
        match texts.last() {
            Some(text) => before.push(text),
            None => before,
        }
    }
}

/// The JSON text of each language tag, in order.
pub open spec fn serialized_tags_of(tags: Seq<String>) -> Seq<Option<Seq<char>>> {
    Seq::new(tags.len(), |i: int| json_text(tags[i]@))
}

/// The language tags of a post: the JSON text of each tag of the record that
/// has one, in order.
pub open spec fn langs_of(langs: Option<Vec<String>>) -> Seq<Seq<char>> {
    match langs {
        Some(tags) => present_texts_of(serialized_tags_of(tags@)),
        None => Seq::empty(),
    }
}

/// The labels of a post: those of its labels union, none where there is no
/// union or an unknown one.
pub open spec fn post_labels_of(labels: Option<LabelsRecord>) -> Seq<LabelView> {
    match labels {
        Some(labels) => match labels_of(labels) {
            Some(labels) => labels,
            None => Seq::empty(),
        },
        None => Seq::empty(),
    }
}

/// The embed of a post: that of its embed union, where there is one.
pub open spec fn post_embed_of(embed: Option<EmbedRecord>) -> Option<EmbedView> {
    match embed {
        Some(embed) => embed_of(embed),
        None => None,
    }
}

/// A post from its parts. There is one exactly when the JSON text of its
/// content hash and its calendar time both exist.
pub open spec fn assembled(
    author: Seq<char>,
    uri: Seq<char>,
    cid: Option<Seq<char>>,
    timestamp: Option<int>,
    text: Seq<char>,
    labels: Seq<LabelView>,
    langs: Seq<Seq<char>>,
    embed: Option<EmbedView>,
) -> Option<PostView> {
    match (cid, timestamp) {
        (Some(cid), Some(timestamp)) => Some(
            PostView { author_did: author, cid, uri, text, labels, langs, timestamp, embed },
        ),
        _ => None,
    }
}

/// The post that a create commit in the post collection carries.
pub open spec fn post_of(commit: CommitRecord, record: PostRecord, cid: String) -> Option<
    PostView,
> {
    assembled(
        commit.author@,
        uri_text(commit.author@, commit.collection@, commit.rkey@),
        json_text(cid@),
        calendar_micros_of(commit.time_us),
        record.text@,
        post_labels_of(record.labels),
        langs_of(record.langs),
        post_embed_of(record.embed),
    )
}

/// The event that a commit stands for, or `None` where the commit is
/// discarded.
///
/// A create counts in the post collection with a post payload, a content hash
/// and a timestamp that denotes a calendar time, and in the like collection
/// with a like payload. A delete counts in either collection. Everything else
/// is discarded.
pub open spec fn normalized(commit: CommitRecord) -> Option<EventView> {
    let uri = uri_text(commit.author@, commit.collection@, commit.rkey@);
    match commit.operation {
        Operation::Create => {
            if commit.collection@ == post_collection() {
                match (commit.record, commit.cid) {
                    (Some(Record::Post(record)), Some(cid)) => match post_of(commit, record, cid) {
                        Some(post) => Some(EventView::PostCreated(post)),
                        None => None,
                    },
                    _ => None,
                }
            } else if commit.collection@ == like_collection() {
                match commit.record {
                    Some(Record::Like(like)) => Some(EventView::LikeCreated(uri, like.subject.uri@)),
                    _ => None,
                }
            } else {
                None
            }
        },
        Operation::Update => None,
        Operation::Delete => {
            if commit.collection@ == post_collection() {
                Some(EventView::PostDeleted(uri))
            } else if commit.collection@ == like_collection() {
                Some(EventView::LikeDeleted(uri))
            } else {
                None
            }
        },
    }
}

impl Uri {
    /// The identifier `at://<author>/<collection>/<rkey>`.
    pub fn from_parts(author: &str, collection: &str, rkey: &str) -> (uri: Uri)
        ensures
            uri@ == uri_text(author@, collection@, rkey@),
    {
        let mut text = String::from_str("at://");
        text.append(author);
        text.append("/");
        text.append(collection);
        text.append("/");
        text.append(rkey);
        Uri(text)
    }
}

/// The signed microseconds of an unsigned event timestamp.
pub fn signed_micros(time_us: u64) -> (micros: i64)
    ensures
        micros == micros_of(time_us),
{
    if time_us <= 0x7fff_ffff_ffff_ffff {
        time_us as i64
    } else {
        let low: u64 = time_us - 0x8000_0000_0000_0000;
        (low as i64) + i64::MIN
    }
}

/// The calendar time of an event in microseconds since the Unix epoch, or
/// `None` where the timestamp denotes no calendar time.
pub fn calendar_micros(time_us: u64) -> (micros: Option<i64>)
    ensures
        match micros {
            Some(m) => calendar_micros_of(time_us) == Some(m as int),
            None => calendar_micros_of(time_us) is None,
        },
{
    let micros = signed_micros(time_us);
    if calendar_time_exists(micros) {
        Some(micros)
    } else {
        None
    }
}

proof fn lemma_present_texts_step(texts: Seq<Option<Seq<char>>>, i: int)
    requires
        0 <= i < texts.len(),
    ensures
        present_texts_of(texts.subrange(0, i + 1)) == match texts[i] {
            Some(text) => present_texts_of(texts.subrange(0, i)).push(text),
            None => present_texts_of(texts.subrange(0, i)),
        },
{
    let upto = texts.subrange(0, i + 1);
    assert(upto.drop_last() =~= texts.subrange(0, i));
    assert(upto.last() == texts[i]);
}

/// Keeps the texts that are there, in order.
pub fn present_texts(texts: &Vec<Option<String>>) -> (present: Vec<String>)
    ensures
        present.deep_view() == present_texts_of(texts.deep_view()),
{
    let mut present: Vec<String> = Vec::new();
    let mut i: usize = 0;
    while i < texts.len()
        invariant
            i <= texts.len(),
            present.deep_view() == present_texts_of(texts.deep_view().subrange(0, i as int)),
        decreases texts.len() - i,
    {
        proof {
            lemma_present_texts_step(texts.deep_view(), i as int);
        }
        let ghost before = present.deep_view();
        match &texts[i] {
            Some(text) => {
                present.push(text.clone());
                assert(present.deep_view() =~= before.push(text@));
            },
            None => {},
        }
        i += 1;
    }
    assert(texts.deep_view().subrange(0, texts.len() as int) =~= texts.deep_view());
    present
}

/// The JSON text of each language tag.
pub fn serialized_tags(tags: &Vec<String>) -> (texts: Vec<Option<String>>)
    ensures
        texts.deep_view() == serialized_tags_of(tags@),
{
    let mut texts: Vec<Option<String>> = Vec::new();
    let mut i: usize = 0;
    while i < tags.len()
        invariant
            i <= tags.len(),
            texts.len() == i,
            forall|k: int| 0 <= k < i ==> #[trigger] texts@[k].deep_view() == json_text(tags@[k]@),
        decreases tags.len() - i,
    {
        texts.push(to_json_text(tags[i].as_str()));
        i += 1;
    }
    assert(texts.deep_view() =~= serialized_tags_of(tags@));
    texts
}

impl Post {
    /// A post from its parts, where the JSON text of its content hash and
    /// its calendar time are both there.
    pub fn assemble(
        author: String,
        uri: Uri,
        cid: Option<String>,
        timestamp: Option<i64>,
        text: String,
        labels: Vec<Label>,
        langs: Vec<String>,
        embed: Option<Embed>,
    ) -> (post: Option<Post>)
        ensures
            post.deep_view() == assembled(
                author@,
                uri@,
                cid.deep_view(),
                match timestamp {
                    Some(t) => Some(t as int),
                    None => None,
                },
                text@,
                labels.deep_view(),
                langs.deep_view(),
                embed.deep_view(),
            ),
    {
        match (cid, timestamp) {
            (Some(cid), Some(timestamp)) => Some(
                Post { author_did: author, cid: Cid(cid), uri, text, labels, langs, timestamp, embed },
            ),
            _ => None,
        }
    }

    /// The post that a create commit in the post collection carries.
    pub fn from_record(commit: &CommitRecord, record: &PostRecord, cid: &String) -> (post: Option<
        Post,
    >)
        ensures
            post.deep_view() == post_of(*commit, *record, *cid),
    {
        let uri = Uri::from_parts(
            commit.author.as_str(),
            commit.collection.as_str(),
            commit.rkey.as_str(),
        );
        let labels = match &record.labels {
            Some(labels) => match Label::from_record(labels) {
                Some(labels) => labels,
                None => Vec::new(),
            },
            None => Vec::new(),
        };
        let langs = match &record.langs {
            Some(tags) => present_texts(&serialized_tags(tags)),
            None => Vec::new(),
        };
        let embed = match &record.embed {
            Some(embed) => Embed::from_record(embed),
            None => None,
        };
        assert(labels.deep_view() =~= post_labels_of(record.labels));
        assert(langs.deep_view() =~= langs_of(record.langs));
        Post::assemble(
            commit.author.clone(),
            uri,
            to_json_text(cid.as_str()),
            calendar_micros(commit.time_us),
            record.text.clone(),
            labels,
            langs,
            embed,
        )
    }
}

/// Turns a commit into the event it stands for, or into `None` where it is
/// discarded. Every commit has an outcome: none is an error.
pub fn normalize(commit: &CommitRecord) -> (event: Option<Event>)
    ensures
        event.deep_view() == normalized(*commit),
{
    let in_posts = text_is(&commit.collection, "app.bsky.feed.post");
    let in_likes = text_is(&commit.collection, "app.bsky.feed.like");
    if !in_posts && !in_likes {
        return None;
    }
    match commit.operation {
        Operation::Create => {
            if in_posts {
                match (&commit.record, &commit.cid) {
                    (Some(Record::Post(record)), Some(cid)) => match Post::from_record(
                        commit,
                        record,
                        cid,
                    ) {
                        Some(post) => Some(Event::PostCreated(post)),
                        None => None,
                    },
                    _ => None,
                }
            } else {
                match &commit.record {
                    Some(Record::Like(like)) => Some(
                        Event::LikeCreated(
                            Uri::from_parts(
                                commit.author.as_str(),
                                commit.collection.as_str(),
                                commit.rkey.as_str(),
                            ),
                            Uri(like.subject.uri.clone()),
                        ),
                    ),
                    _ => None,
                }
            }
        },
        Operation::Update => None,
        Operation::Delete => {
            let uri = Uri::from_parts(
                commit.author.as_str(),
                commit.collection.as_str(),
                commit.rkey.as_str(),
            );
            if in_posts {
                Some(Event::PostDeleted(uri))
            } else {
                Some(Event::LikeDeleted(uri))
            }
        },
    }
}

/// A create in the post collection with a post payload and a content hash,
/// whose timestamp denotes no calendar time.
pub open spec fn is_untimely_post_create(commit: CommitRecord) -> bool {
    &&& commit.operation == Operation::Create
    &&& commit.collection@ == post_collection()
    &&& commit.record matches Some(Record::Post(_))
    &&& commit.cid is Some
    &&& calendar_micros_of(commit.time_us) is None
}

/// Whether a commit is a post create that is discarded for its timestamp,
/// which denotes no calendar time.
pub fn has_invalid_timestamp(commit: &CommitRecord) -> (invalid: bool)
    ensures
        invalid == is_untimely_post_create(*commit),
        invalid ==> normalized(*commit) is None,
{
    match (&commit.operation, &commit.record, &commit.cid) {
        (Operation::Create, Some(Record::Post(_)), Some(_)) => text_is(
            &commit.collection,
            "app.bsky.feed.post",
        ) && calendar_micros(commit.time_us).is_none(),
        _ => false,
    }
}

/// A create in the post collection that carries a post payload, a content
/// hash that has a JSON text, and a timestamp that denotes a calendar time.
pub open spec fn is_post_create(commit: CommitRecord) -> bool {
    &&& commit.operation == Operation::Create
    &&& commit.collection@ == post_collection()
    &&& commit.record matches Some(Record::Post(_))
    &&& match commit.cid {
        Some(cid) => json_text(cid@) is Some,
        None => false,
    }
    &&& is_calendar_micros(micros_of(commit.time_us))
}

/// A create in the like collection that carries a like payload.
pub open spec fn is_like_create(commit: CommitRecord) -> bool {
    &&& commit.operation == Operation::Create
    &&& commit.collection@ == like_collection()
    &&& commit.record matches Some(Record::Like(_))
}

/// A delete in the post collection.
pub open spec fn is_post_delete(commit: CommitRecord) -> bool {
    commit.operation == Operation::Delete && commit.collection@ == post_collection()
}

/// A delete in the like collection.
pub open spec fn is_like_delete(commit: CommitRecord) -> bool {
    commit.operation == Operation::Delete && commit.collection@ == like_collection()
}

/// The commits that stand for an event.
pub open spec fn is_recognised(commit: CommitRecord) -> bool {
    is_post_create(commit) || is_like_create(commit) || is_post_delete(commit) || is_like_delete(
        commit,
    )
}

/// The two collection names differ.
pub proof fn collections_differ()
    ensures
        post_collection() != like_collection(),
{
    reveal_strlit("app.bsky.feed.post");
    reveal_strlit("app.bsky.feed.like");
    assert(post_collection()[14] == 'p');
    assert(like_collection()[14] == 'l');
}

/// A well-formed post create stands for exactly one created post, whose
/// identifier is `at://<author>/app.bsky.feed.post/<rkey>` and whose author is
/// the commit's.
pub proof fn post_create_is_post_created(commit: CommitRecord)
    requires
        is_post_create(commit),
    ensures
        match normalized(commit) {
            Some(EventView::PostCreated(post)) => post.uri == uri_text(
                commit.author@,
                post_collection(),
                commit.rkey@,
            ) && post.author_did == commit.author@,
            _ => false,
        },
{
}

/// The timestamp of every created post denotes a calendar time.
pub proof fn created_posts_have_calendar_times(commit: CommitRecord)
    ensures
        match normalized(commit) {
            Some(EventView::PostCreated(post)) => is_calendar_micros(post.timestamp)
                && post.timestamp == micros_of(commit.time_us),
            _ => true,
        },
{
}

/// A delete in the post collection stands for exactly one deleted post, with
/// the identifier built from the commit's author and record key, whatever
/// else the commit carries.
pub proof fn post_delete_is_post_deleted(commit: CommitRecord)
    requires
        is_post_delete(commit),
    ensures
        normalized(commit) == Some(
            EventView::PostDeleted(uri_text(commit.author@, post_collection(), commit.rkey@)),
        ),
{
}

/// A create in the like collection stands for a like on the payload's
/// subject, and a delete there for the like's removal.
pub proof fn like_commits_are_like_events(commit: CommitRecord)
    ensures
        is_like_create(commit) ==> match commit.record {
            Some(Record::Like(record)) => normalized(commit) == Some(
                EventView::LikeCreated(
                    uri_text(commit.author@, like_collection(), commit.rkey@),
                    record.subject.uri@,
                ),
            ),
            _ => false,
        },
        is_like_delete(commit) ==> normalized(commit) == Some(
            EventView::LikeDeleted(uri_text(commit.author@, like_collection(), commit.rkey@)),
        ),
{
    collections_differ();
}

/// A commit stands for an event exactly when it is recognised: every other
/// commit, however malformed, is discarded.
pub proof fn unrecognised_commits_are_discarded(commit: CommitRecord)
    ensures
        normalized(commit) is Some <==> is_recognised(commit),
{
    collections_differ();
}

} // verus!
