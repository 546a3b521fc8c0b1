use vstd::prelude::*;

use crate::models::{
    Cid, Embed, EmbedView, ExternalEmbed, ExternalEmbedView, ImageEmbed, ImageEmbedView, Label,
    LabelView, MediaEmbed, MediaEmbedView, QuoteEmbed, QuoteEmbedView, VideoEmbed, VideoEmbedView,
    label_of,
};
use crate::record::{
    BlobRef, EmbedRecord, ExternalRecord, ImageRecord, LabelsRecord, MediaRecord, StrongRef,
    VideoRecord,
};
use crate::trusted::{json_text, to_json_text};

verus! {

/// The content hash that a blob reference names, if it is a typed one.
pub open spec fn blob_cid(blob: BlobRef) -> Option<Seq<char>> {
    match blob {
        BlobRef::Typed { cid, mime_type } => Some(cid@),
        BlobRef::Untyped => None,
    }
}

/// An image entry gives an image exactly when its blob reference is typed.
pub open spec fn image_embed_of(image: ImageRecord) -> Option<ImageEmbedView> {
    match image.image {
        BlobRef::Typed { cid, mime_type } => Some(
            ImageEmbedView { cid: cid@, alt_text: image.alt@, mime_type: mime_type@ },
        ),
        BlobRef::Untyped => None,
    }
}

/// The images of a list of entries, in order, without the entries that give
/// none.
pub open spec fn image_embeds_of(images: Seq<ImageRecord>) -> Seq<ImageEmbedView>
    decreases images.len(),
{
    if images.len() == 0 {
        Seq::empty()
    } else {
        let before = image_embeds_of(images.drop_last());
        match image_embed_of(images.last()) {
            Some(image) => before.push(image),
            None => before,
        }
    }
}

/// A video record gives a video exactly when its blob reference is typed; a
/// missing alternative text counts as empty.
pub open spec fn video_embed_of(video: VideoRecord) -> Option<VideoEmbedView> {
    match video.video {
        BlobRef::Typed { cid, mime_type } => Some(
            VideoEmbedView {
                cid: cid@,
                alt_text: match video.alt {
                    Some(alt) => alt@,
                    None => Seq::empty(),
                },
            },
        ),
        BlobRef::Untyped => None,
    }
}

/// A link card always converts; its thumbnail is kept where it is a typed
/// blob reference.
pub open spec fn external_embed_of(external: ExternalRecord) -> ExternalEmbedView {
    ExternalEmbedView {
        title: external.title@,
        description: external.description@,
        uri: external.uri@,
        thumbnail: match external.thumb {
            Some(blob) => blob_cid(blob),
            None => None,
        },
    }
}

/// A quote built from the JSON text of the quoted record's content hash:
/// there is one exactly when that text exists.
pub open spec fn quote_from_serialized(cid: Option<Seq<char>>, uri: Seq<char>) -> Option<
    QuoteEmbedView,
> {
    match cid {
        Some(text) => Some(QuoteEmbedView { cid: text, uri }),
        None => None,
    }
}

/// The quote that a record reference gives: its content hash as JSON text,
/// and its identifier.
pub open spec fn quote_embed_of(reference: StrongRef) -> Option<QuoteEmbedView> {
    quote_from_serialized(json_text(reference.cid@), reference.uri@)
}

/// The media of a quote with media; an unknown shape and a video without a
/// typed blob give none.
pub open spec fn media_embed_of(media: MediaRecord) -> Option<MediaEmbedView> {
    match media {
        MediaRecord::Images(images) => Some(MediaEmbedView::Images(image_embeds_of(images@))),
        MediaRecord::Video(video) => match video_embed_of(video) {
            Some(video) => Some(MediaEmbedView::Video(video)),
            None => None,
        },
        MediaRecord::External(external) => Some(
            MediaEmbedView::External(external_embed_of(external)),
        ),
        MediaRecord::Unknown => None,
    }
}

/// A quote with media needs both its media and its quote.
pub open spec fn quote_with_media(
    quote: Option<QuoteEmbedView>,
    media: Option<MediaEmbedView>,
) -> Option<EmbedView> {
    match (media, quote) {
        (Some(media), Some(quote)) => Some(EmbedView::QuoteWithMedia(quote, media)),
        _ => None,
    }
}

/// The embed that an embed union gives. Whatever is not recognised, at any
/// depth, gives no embed.
pub open spec fn embed_of(embed: EmbedRecord) -> Option<EmbedView> {
    match embed {
        EmbedRecord::Images(images) => Some(EmbedView::Images(image_embeds_of(images@))),
        EmbedRecord::Video(video) => match video_embed_of(video) {
            Some(video) => Some(EmbedView::Video(video)),
            None => None,
        },
        EmbedRecord::External(external) => Some(EmbedView::External(external_embed_of(external))),
        EmbedRecord::Record(reference) => match quote_embed_of(reference) {
            Some(quote) => Some(EmbedView::Quote(quote)),
            None => None,
        },
        EmbedRecord::RecordWithMedia(reference, media) => quote_with_media(
            quote_embed_of(reference),
            media_embed_of(media),
        ),
        EmbedRecord::Unknown => None,
    }
}

/// The labels that a labels union gives: one per value, or none at all for an
/// unknown shape.
pub open spec fn labels_of(labels: LabelsRecord) -> Option<Seq<LabelView>> {
    match labels {
        LabelsRecord::SelfLabels(values) => Some(
            Seq::new(values@.len(), |i: int| label_of(values@[i]@)),
        ),
        LabelsRecord::Unknown => None,
    }
}

proof fn lemma_image_embeds_step(images: Seq<ImageRecord>, i: int)
    requires
        0 <= i < images.len(),
    ensures
        image_embeds_of(images.subrange(0, i + 1)) == match image_embed_of(images[i]) {
            Some(image) => image_embeds_of(images.subrange(0, i)).push(image),
            None => image_embeds_of(images.subrange(0, i)),
        },
{
    let upto = images.subrange(0, i + 1);
    assert(upto.drop_last() =~= images.subrange(0, i));
    assert(upto.last() == images[i]);
}

/// Converts the entries of an images embed, keeping the order.
pub fn image_embeds(images: &Vec<ImageRecord>) -> (embeds: Vec<ImageEmbed>)
    ensures
        embeds.deep_view() == image_embeds_of(images@),
{
    let mut embeds: Vec<ImageEmbed> = Vec::new();
    let mut i: usize = 0;
    while i < images.len()
        invariant
            i <= images.len(),
            embeds.deep_view() == image_embeds_of(images@.subrange(0, i as int)),
        decreases images.len() - i,
    {
        proof {
            lemma_image_embeds_step(images@, i as int);
        }
        let ghost before = embeds.deep_view();
        match ImageEmbed::from_record(&images[i]) {
            Some(embed) => {
                embeds.push(embed);
                assert(embeds.deep_view() =~= before.push(embed.deep_view()));
            },
            None => {},
        }
        i += 1;
    }
    assert(images@.subrange(0, images.len() as int) =~= images@);
    embeds
}

impl ImageEmbed {
    /// An image, where the entry's blob reference is a typed one.
    pub fn from_record(image: &ImageRecord) -> (embed: Option<ImageEmbed>)
        ensures
            embed.deep_view() == image_embed_of(*image),
    {
        match &image.image {
            BlobRef::Typed { cid, mime_type } => Some(
                ImageEmbed {
                    cid: Cid(cid.clone()),
                    alt_text: image.alt.clone(),
                    mime_type: mime_type.clone(),
                },
            ),
            BlobRef::Untyped => None,
        }
    }
}

impl VideoEmbed {
    /// A video, where the record's blob reference is a typed one.
    pub fn from_record(video: &VideoRecord) -> (embed: Option<VideoEmbed>)
        ensures
            embed.deep_view() == video_embed_of(*video),
    {
        match &video.video {
            BlobRef::Typed { cid, mime_type } => {
                let alt_text = match &video.alt {
                    Some(alt) => alt.clone(),
                    None => String::new(),
                };
                Some(VideoEmbed { cid: Cid(cid.clone()), alt_text })
            },
            BlobRef::Untyped => None,
        }
    }
}

impl ExternalEmbed {
    /// The link card of a record.
    pub fn from_record(external: &ExternalRecord) -> (embed: ExternalEmbed)
        ensures
            embed.deep_view() == external_embed_of(*external),
    {
        let thumbnail = match &external.thumb {
            Some(BlobRef::Typed { cid, mime_type }) => Some(Cid(cid.clone())),
            _ => None,
        };
        ExternalEmbed {
            title: external.title.clone(),
            description: external.description.clone(),
            uri: external.uri.clone(),
            thumbnail,
        }
    }
}

impl QuoteEmbed {
    /// A quote from the JSON text of the quoted record's content hash, where
    /// there is one, and the quoted record's identifier.
    pub fn from_serialized(cid: Option<String>, uri: String) -> (embed: Option<QuoteEmbed>)
        ensures
            embed.deep_view() == quote_from_serialized(cid.deep_view(), uri@),
    {
        match cid {
            Some(text) => Some(QuoteEmbed { cid: Cid(text), uri }),
            None => None,
        }
    }

    /// The quote that a record reference gives.
    pub fn from_record(reference: &StrongRef) -> (embed: Option<QuoteEmbed>)
        ensures
            embed.deep_view() == quote_embed_of(*reference),
    {
        QuoteEmbed::from_serialized(to_json_text(reference.cid.as_str()), reference.uri.clone())
    }
}

impl MediaEmbed {
    /// The media of a quote with media.
    pub fn from_record(media: &MediaRecord) -> (embed: Option<MediaEmbed>)
        ensures
            embed.deep_view() == media_embed_of(*media),
    {
        match media {
            MediaRecord::Images(images) => Some(MediaEmbed::Images(image_embeds(images))),
            MediaRecord::Video(video) => match VideoEmbed::from_record(video) {
                Some(video) => Some(MediaEmbed::Video(video)),
                None => None,
            },
            MediaRecord::External(external) => Some(
                MediaEmbed::External(ExternalEmbed::from_record(external)),
            ),
            MediaRecord::Unknown => None,
        }
    }
}

impl Embed {
    /// A quote with media from its two parts, where both are there.
    pub fn quote_with_media(quote: Option<QuoteEmbed>, media: Option<MediaEmbed>) -> (embed:
        Option<Embed>)
        ensures
            embed.deep_view() == quote_with_media(quote.deep_view(), media.deep_view()),
    {
        match (media, quote) {
            (Some(media), Some(quote)) => Some(Embed::QuoteWithMedia(quote, media)),
            _ => None,
        }
    }

    /// The embed of a post record's embed union.
    pub fn from_record(embed: &EmbedRecord) -> (converted: Option<Embed>)
        ensures
            converted.deep_view() == embed_of(*embed),
    {
        match embed {
            EmbedRecord::Images(images) => Some(Embed::Images(image_embeds(images))),
            EmbedRecord::Video(video) => match VideoEmbed::from_record(video) {
                Some(video) => Some(Embed::Video(video)),
                None => None,
            },
            EmbedRecord::External(external) => Some(
                Embed::External(ExternalEmbed::from_record(external)),
            ),
            EmbedRecord::Record(reference) => match QuoteEmbed::from_record(reference) {
                Some(quote) => Some(Embed::Quote(quote)),
                None => None,
            },
            EmbedRecord::RecordWithMedia(reference, media) => {
                let media = MediaEmbed::from_record(media);
                if media.is_none() {
                    return None;
                }
                Embed::quote_with_media(QuoteEmbed::from_record(reference), media)
            },
            EmbedRecord::Unknown => None,
        }
    }
}

impl Label {
    /// The labels of a post record's labels union.
    pub fn from_record(labels: &LabelsRecord) -> (converted: Option<Vec<Label>>)
        ensures
            converted.deep_view() == labels_of(*labels),
    {
        match labels {
            LabelsRecord::SelfLabels(values) => {
                let mut converted: Vec<Label> = Vec::new();
                let mut i: usize = 0;
                while i < values.len()
                    invariant
                        i <= values.len(),
                        converted.len() == i,
                        forall|k: int|
                            0 <= k < i ==> #[trigger] converted@[k].deep_view() == label_of(
                                values@[k]@,
                            ),
                    decreases values.len() - i,
                {
                    converted.push(Label::from(values[i].clone()));
                    i += 1;
                }
                assert(converted.deep_view() =~= Seq::new(
                    values@.len(),
                    |i: int| label_of(values@[i]@),
                ));
                Some(converted)
            },
            LabelsRecord::Unknown => None,
        }
    }
}

} // verus!
