use vstd::prelude::*;
use vstd::std_specs::convert::FromSpecImpl;

use crate::text::text_is;

verus! {

/// Canonical resource identifier, `at://<author>/<collection>/<record-key>`.
/// Two identifiers are the same exactly when their characters are.
#[derive(Debug, Clone, Hash)]
pub struct Uri(pub String);

impl View for Uri {
    type V = Seq<char>;

    open spec fn view(&self) -> Seq<char> {
        self.0@
    }
}

impl DeepView for Uri {
    type V = Seq<char>;

    open spec fn deep_view(&self) -> Seq<char> {
        self.0@
    }
}

impl PartialEq for Uri {
    fn eq(&self, other: &Uri) -> (same: bool) {
        self.0 == other.0
    }
}

impl Eq for Uri {

}

impl vstd::std_specs::cmp::PartialEqSpecImpl for Uri {
    open spec fn obeys_eq_spec() -> bool {
        true
    }

    open spec fn eq_spec(&self, other: &Uri) -> bool {
        self.0@ == other.0@
    }
}

/// Content hash of a record, in text form.
#[derive(Debug, Clone)]
pub struct Cid(pub String);

impl View for Cid {
    type V = Seq<char>;

    open spec fn view(&self) -> Seq<char> {
        self.0@
    }
}

impl DeepView for Cid {
    type V = Seq<char>;

    open spec fn deep_view(&self) -> Seq<char> {
        self.0@
    }
}

/// A self-applied content label.
#[derive(Debug, Clone)]
pub enum Label {
    Hide,
    Warn,
    NoUnauthenticated,
    Porn,
    Sexual,
    GraphicMedia,
    Nudity,
    Other(String),
}

/// What a [`Label`] stands for.
pub enum LabelView {
    Hide,
    Warn,
    NoUnauthenticated,
    Porn,
    Sexual,
    GraphicMedia,
    Nudity,
    Other(Seq<char>),
}

impl DeepView for Label {
    type V = LabelView;

    open spec fn deep_view(&self) -> LabelView {
        match self {
            Label::Hide => LabelView::Hide,
            Label::Warn => LabelView::Warn,
            Label::NoUnauthenticated => LabelView::NoUnauthenticated,
            Label::Porn => LabelView::Porn,
            Label::Sexual => LabelView::Sexual,
            Label::GraphicMedia => LabelView::GraphicMedia,
            Label::Nudity => LabelView::Nudity,
            Label::Other(text) => LabelView::Other(text@),
        }
    }
}

/// The label that a label string denotes: one of the seven known values, or
/// `Other` with the string itself.
pub open spec fn label_of(text: Seq<char>) -> LabelView {
    if text == "!hide"@ {
        LabelView::Hide
    } else if text == "!warn"@ {
        LabelView::Warn
    } else if text == "!no-unauthenticated"@ {
        LabelView::NoUnauthenticated
    } else if text == "porn"@ {
        LabelView::Porn
    } else if text == "sexual"@ {
        LabelView::Sexual
    } else if text == "graphic-media"@ {
        LabelView::GraphicMedia
    } else if text == "nudity"@ {
        LabelView::Nudity
    } else {
        LabelView::Other(text)
    }
}

impl FromSpecImpl<String> for Label {
    open spec fn obeys_from_spec() -> bool {
        true
    }

    open spec fn from_spec(value: String) -> Label {
        match label_of(value@) {
            LabelView::Hide => Label::Hide,
            LabelView::Warn => Label::Warn,
            LabelView::NoUnauthenticated => Label::NoUnauthenticated,
            LabelView::Porn => Label::Porn,
            LabelView::Sexual => Label::Sexual,
            LabelView::GraphicMedia => Label::GraphicMedia,
            LabelView::Nudity => Label::Nudity,
            LabelView::Other(_) => Label::Other(value),
        }
    }
}

impl From<String> for Label {
    /// Every string denotes exactly one label.
    fn from(value: String) -> (label: Label)
        ensures
            label.deep_view() == label_of(value@),
    {
        if text_is(&value, "!hide") {
            Label::Hide
        } else if text_is(&value, "!warn") {
            Label::Warn
        } else if text_is(&value, "!no-unauthenticated") {
            Label::NoUnauthenticated
        } else if text_is(&value, "porn") {
            Label::Porn
        } else if text_is(&value, "sexual") {
            Label::Sexual
        } else if text_is(&value, "graphic-media") {
            Label::GraphicMedia
        } else if text_is(&value, "nudity") {
            Label::Nudity
        } else {
            Label::Other(value)
        }
    }
}

impl PartialEq for Label {
    fn eq(&self, other: &Label) -> (same: bool) {
        match (self, other) {
            (Label::Hide, Label::Hide) => true,
            (Label::Warn, Label::Warn) => true,
            (Label::NoUnauthenticated, Label::NoUnauthenticated) => true,
            (Label::Porn, Label::Porn) => true,
            (Label::Sexual, Label::Sexual) => true,
            (Label::GraphicMedia, Label::GraphicMedia) => true,
            (Label::Nudity, Label::Nudity) => true,
            (Label::Other(a), Label::Other(b)) => *a == *b,
            _ => false,
        }
    }
}

impl Eq for Label {

}

impl vstd::std_specs::cmp::PartialEqSpecImpl for Label {
    open spec fn obeys_eq_spec() -> bool {
        true
    }

    open spec fn eq_spec(&self, other: &Label) -> bool {
        self.deep_view() == other.deep_view()
    }
}

/// One image attached to a post.
#[derive(Debug, Clone)]
pub struct ImageEmbed {
    pub cid: Cid,
    pub alt_text: String,
    pub mime_type: String,
}

pub struct ImageEmbedView {
    pub cid: Seq<char>,
    pub alt_text: Seq<char>,
    pub mime_type: Seq<char>,
}

impl DeepView for ImageEmbed {
    type V = ImageEmbedView;

    open spec fn deep_view(&self) -> ImageEmbedView {
        ImageEmbedView { cid: self.cid@, alt_text: self.alt_text@, mime_type: self.mime_type@ }
    }
}

/// A video attached to a post.
#[derive(Debug, Clone)]
pub struct VideoEmbed {
    pub cid: Cid,
    pub alt_text: String,
}

pub struct VideoEmbedView {
    pub cid: Seq<char>,
    pub alt_text: Seq<char>,
}

impl DeepView for VideoEmbed {
    type V = VideoEmbedView;

    open spec fn deep_view(&self) -> VideoEmbedView {
        VideoEmbedView { cid: self.cid@, alt_text: self.alt_text@ }
    }
}

/// A link card attached to a post.
#[derive(Debug, Clone)]
pub struct ExternalEmbed {
    pub title: String,
    pub description: String,
    pub uri: String,
    pub thumbnail: Option<Cid>,
}

pub struct ExternalEmbedView {
    pub title: Seq<char>,
    pub description: Seq<char>,
    pub uri: Seq<char>,
    pub thumbnail: Option<Seq<char>>,
}

impl DeepView for ExternalEmbed {
    type V = ExternalEmbedView;

    open spec fn deep_view(&self) -> ExternalEmbedView {
        ExternalEmbedView {
            title: self.title@,
            description: self.description@,
            uri: self.uri@,
            thumbnail: self.thumbnail.deep_view(),
        }
    }
}

/// A reference to another record that a post quotes.
#[derive(Debug, Clone)]
pub struct QuoteEmbed {
    pub cid: Cid,
    pub uri: String,
}

pub struct QuoteEmbedView {
    pub cid: Seq<char>,
    pub uri: Seq<char>,
}

impl DeepView for QuoteEmbed {
    type V = QuoteEmbedView;

    open spec fn deep_view(&self) -> QuoteEmbedView {
        QuoteEmbedView { cid: self.cid@, uri: self.uri@ }
    }
}

/// The media that accompanies a quote.
#[derive(Debug, Clone)]
pub enum MediaEmbed {
    Images(Vec<ImageEmbed>),
    Video(VideoEmbed),
    External(ExternalEmbed),
}

pub enum MediaEmbedView {
    Images(Seq<ImageEmbedView>),
    Video(VideoEmbedView),
    External(ExternalEmbedView),
}

impl DeepView for MediaEmbed {
    type V = MediaEmbedView;

    open spec fn deep_view(&self) -> MediaEmbedView {
        match self {
            MediaEmbed::Images(images) => MediaEmbedView::Images(images.deep_view()),
            MediaEmbed::Video(video) => MediaEmbedView::Video(video.deep_view()),
            MediaEmbed::External(external) => MediaEmbedView::External(external.deep_view()),
        }
    }
}

/// What a post embeds.
#[derive(Debug, Clone)]
pub enum Embed {
    Images(Vec<ImageEmbed>),
    Video(VideoEmbed),
    External(ExternalEmbed),
    Quote(QuoteEmbed),
    QuoteWithMedia(QuoteEmbed, MediaEmbed),
}

pub enum EmbedView {
    Images(Seq<ImageEmbedView>),
    Video(VideoEmbedView),
    External(ExternalEmbedView),
    Quote(QuoteEmbedView),
    QuoteWithMedia(QuoteEmbedView, MediaEmbedView),
}

impl DeepView for Embed {
    type V = EmbedView;

    open spec fn deep_view(&self) -> EmbedView {
        match self {
            Embed::Images(images) => EmbedView::Images(images.deep_view()),
            Embed::Video(video) => EmbedView::Video(video.deep_view()),
            Embed::External(external) => EmbedView::External(external.deep_view()),
            Embed::Quote(quote) => EmbedView::Quote(quote.deep_view()),
            Embed::QuoteWithMedia(quote, media) => EmbedView::QuoteWithMedia(
                quote.deep_view(),
                media.deep_view(),
            ),
        }
    }
}

/// A post as handlers receive it. `timestamp` counts microseconds since the
/// Unix epoch.
#[derive(Debug, Clone)]
pub struct Post {
    pub author_did: String,
    pub cid: Cid,
    pub uri: Uri,
    pub text: String,
    pub labels: Vec<Label>,
    pub langs: Vec<String>,
    pub timestamp: i64,
    pub embed: Option<Embed>,
}

pub struct PostView {
    pub author_did: Seq<char>,
    pub cid: Seq<char>,
    pub uri: Seq<char>,
    pub text: Seq<char>,
    pub labels: Seq<LabelView>,
    pub langs: Seq<Seq<char>>,
    pub timestamp: int,
    pub embed: Option<EmbedView>,
}

impl DeepView for Post {
    type V = PostView;

    open spec fn deep_view(&self) -> PostView {
        PostView {
            author_did: self.author_did@,
            cid: self.cid@,
            uri: self.uri@,
            text: self.text@,
            labels: self.labels.deep_view(),
            langs: self.langs.deep_view(),
            timestamp: self.timestamp as int,
            embed: self.embed.deep_view(),
        }
    }
}

/// A page size that a query may ask for: between 1 and 100.
#[derive(Debug, Clone, Copy)]
pub struct Limit {
    value: u8,
}

impl Limit {
    /// The smallest and the largest page size that can be asked for.
    pub const MIN: u8 = 1;

    pub const MAX: u8 = 100;

    #[verifier::type_invariant]
    spec fn in_range(self) -> bool {
        1 <= self.value <= 100
    }

    /// The number that this limit carries.
    pub closed spec fn spec_get(self) -> u8 {
        self.value
    }

    /// Accepts exactly the numbers from 1 to 100.
    pub fn new(value: u8) -> (limit: Option<Limit>)
        ensures
            limit is Some <==> 1 <= value <= 100,
            limit matches Some(l) ==> l.spec_get() == value,
    {
        if 1 <= value && value <= 100 {
            Some(Limit { value })
        } else {
            None
        }
    }

    #[verifier::when_used_as_spec(spec_get)]
    pub fn get(self) -> (value: u8)
        ensures
            value == self.spec_get(),
            1 <= value <= 100,
    {
        proof {
            use_type_invariant(&self);
        }
        self.value
    }
}

/// A feed query: where to continue, which feed, and how many items at most.
#[derive(Debug, Clone)]
pub struct Request {
    pub cursor: Option<String>,
    pub feed: String,
    pub limit: Option<Limit>,
}

pub struct RequestView {
    pub cursor: Option<Seq<char>>,
    pub feed: Seq<char>,
    pub limit: Option<u8>,
}

impl DeepView for Request {
    type V = RequestView;

    open spec fn deep_view(&self) -> RequestView {
        RequestView {
            cursor: self.cursor.deep_view(),
            feed: self.feed@,
            limit: match self.limit {
                Some(limit) => Some(limit.spec_get()),
                None => None,
            },
        }
    }
}

/// One page of a feed. The cursor is absent exactly when no page follows.
#[derive(Debug, Clone)]
pub struct FeedResult {
    pub cursor: Option<String>,
    pub feed: Vec<Uri>,
}

pub struct FeedResultView {
    pub cursor: Option<Seq<char>>,
    pub feed: Seq<Seq<char>>,
}

impl DeepView for FeedResult {
    type V = FeedResultView;

    open spec fn deep_view(&self) -> FeedResultView {
        FeedResultView { cursor: self.cursor.deep_view(), feed: self.feed.deep_view() }
    }
}

} // verus!
