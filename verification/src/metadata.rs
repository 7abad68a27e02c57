//! What the window shows of a track: its texts and its cover.

use vstd::prelude::*;
use id3::TagLike;
use crate::cover::CoverError;
use crate::cover::CoverImage;
use crate::cover::CoverView;
use crate::cover::cover_view;
use crate::cover::render_cover_image;

verus! {

#[verifier::external_type_specification]
#[verifier::external_body]
pub struct ExTag(id3::Tag);

/// The title that a tag holds, if it holds one.
pub uninterp spec fn tag_title(tag: id3::Tag) -> Option<Seq<char>>;

/// The artist that a tag holds, if it holds one.
pub uninterp spec fn tag_artist(tag: id3::Tag) -> Option<Seq<char>>;

/// The album that a tag holds, if it holds one.
pub uninterp spec fn tag_album(tag: id3::Tag) -> Option<Seq<char>>;

/// The bytes of the first picture that a tag holds, if it holds any.
pub uninterp spec fn tag_picture(tag: id3::Tag) -> Option<Seq<u8>>;

/// The characters of an optional text.
pub open spec fn text_view(text: Option<String>) -> Option<Seq<char>> {
    match text {
        Some(t) => Some(t@),
        None => None,
    }
}

/// The bytes of an optional buffer.
pub open spec fn bytes_view(bytes: Option<Vec<u8>>) -> Option<Seq<u8>> {
    match bytes {
        Some(b) => Some(b@),
        None => None,
    }
}

/// Calls `id3::TagLike::title` on the tag and copies the text. Trusted: the
/// answer depends on the tag alone, so it is `tag_title` of it.
#[verifier::external_body]
fn read_title(tag: &id3::Tag) -> (title: Option<String>)
    ensures
        text_view(title) == tag_title(*tag),
{
    tag.title().map(String::from)
}

/// Calls `id3::TagLike::artist` on the tag and copies the text. Trusted: the
/// answer depends on the tag alone, so it is `tag_artist` of it.
#[verifier::external_body]
fn read_artist(tag: &id3::Tag) -> (artist: Option<String>)
    ensures
        text_view(artist) == tag_artist(*tag),
{
    tag.artist().map(String::from)
}

/// Calls `id3::TagLike::album` on the tag and copies the text. Trusted: the
/// answer depends on the tag alone, so it is `tag_album` of it.
#[verifier::external_body]
fn read_album(tag: &id3::Tag) -> (album: Option<String>)
    ensures
        text_view(album) == tag_album(*tag),
{
    tag.album().map(String::from)
}

/// Calls `id3::Tag::pictures` on the tag and copies the data of the first
/// picture that the iterator yields. Trusted: the answer depends on the tag
/// alone, so it is `tag_picture` of it.
#[verifier::external_body]
fn read_first_picture(tag: &id3::Tag) -> (picture: Option<Vec<u8>>)
    ensures
        bytes_view(picture) == tag_picture(*tag),
{
    tag.pictures().next().map(|picture| picture.data.clone())
}

/// The placeholder shown for a track without a title.
pub open spec fn unknown_title() -> Seq<char> {
    "Unknown Title"@
}

/// The placeholder shown for a track without an artist.
pub open spec fn unknown_artist() -> Seq<char> {
    "Unknown Artist"@
}

/// The placeholder shown for a track without an album.
pub open spec fn unknown_album() -> Seq<char> {
    "Unknown Album"@
}

/// The text itself, or the placeholder where there is none.
pub open spec fn text_or(text: Option<Seq<char>>, placeholder: Seq<char>) -> Seq<char> {
    match text {
        Some(t) => t,
        None => placeholder,
    }
}

/// What the window shows of a track, as plain values.
pub struct TrackView {
    pub title: Seq<char>,
    pub artist: Seq<char>,
    pub album: Seq<char>,
    pub cover: Option<CoverView>,
}

/// What the window shows of a track. Read once, never changed.
#[derive(Debug, Clone)]
pub struct TrackMetadata {
    pub title: String,
    pub artist: String,
    pub album: String,
    pub cover: Option<CoverImage>,
}

impl View for TrackMetadata {
    type V = TrackView;

    open spec fn view(&self) -> TrackView {
        TrackView {
            title: self.title@,
            artist: self.artist@,
            album: self.album@,
            cover: match self.cover {
                Some(c) => Some(c@),
                None => None,
            },
        }
    }
}

/// The view of the rendered track, or the error in its place.
pub open spec fn track_view(track: Result<TrackMetadata, CoverError>) -> Result<
    TrackView,
    CoverError,
> {
    match track {
        Ok(t) => Ok(t@),
        Err(e) => Err(e),
    }
}

/// The view of what became of an optional picture.
pub open spec fn outcome_view(cover: Option<Result<CoverImage, CoverError>>) -> Option<
    Result<CoverView, CoverError>,
> {
    match cover {
        Some(c) => Some(cover_view(c)),
        None => None,
    }
}

/// What is shown for the given tag fields: each text or its placeholder,
/// and the cover, if there was a picture. A picture that gave no cover
/// gives no track either, but its error.
pub open spec fn rendered(
    title: Option<Seq<char>>,
    artist: Option<Seq<char>>,
    album: Option<Seq<char>>,
    cover: Option<Result<CoverView, CoverError>>,
) -> Result<TrackView, CoverError> {
    let shown = TrackView {
        title: text_or(title, unknown_title()),
        artist: text_or(artist, unknown_artist()),
        album: text_or(album, unknown_album()),
        cover: None,
    };
    match cover {
        None => Ok(shown),
        Some(Ok(c)) => Ok(TrackView { cover: Some(c), ..shown }),
        Some(Err(e)) => Err(e),
    }
}

/// Returns the text, or a copy of the placeholder where there is none.
pub fn text_or_placeholder(text: Option<String>, placeholder: &str) -> (shown: String)
    ensures
        shown@ == text_or(text_view(text), placeholder@),
{
    match text {
        Some(t) => t,
        None => placeholder.to_owned(),
    }
}

/// Renders tag fields that were already read, and the outcome of decoding
/// the first picture, if there was one.
pub fn render_fields(
    title: Option<String>,
    artist: Option<String>,
    album: Option<String>,
    cover: Option<Result<CoverImage, CoverError>>,
) -> (track: Result<TrackMetadata, CoverError>)
    ensures
        track_view(track) == rendered(
            text_view(title),
            text_view(artist),
            text_view(album),
            outcome_view(cover),
        ),
{
    let cover = match cover {
        Some(Ok(c)) => Some(c),
        Some(Err(e)) => {
            return Err(e);
        },
        None => None,
    };
    Ok(
        TrackMetadata {
            title: text_or_placeholder(title, "Unknown Title"),
            artist: text_or_placeholder(artist, "Unknown Artist"),
            album: text_or_placeholder(album, "Unknown Album"),
            cover,
        },
    )
}

/// Renders a tag: reads its title, artist, album and first picture, decodes
/// the picture, and renders them as `render_fields` does. A tag without a
/// picture always renders; with one, the decoder decides.
pub fn render_song_tags(tag: &id3::Tag) -> (track: Result<TrackMetadata, CoverError>)
    ensures
        match track {
            Ok(t) => {
                &&& t@.title == text_or(tag_title(*tag), unknown_title())
                &&& t@.artist == text_or(tag_artist(*tag), unknown_artist())
                &&& t@.album == text_or(tag_album(*tag), unknown_album())
                &&& t.cover.is_some() == tag_picture(*tag).is_some()
                &&& t.cover matches Some(c) ==> c.well_formed()
            },
            Err(_) => tag_picture(*tag).is_some(),
        },
{
    let title = read_title(tag);
    let artist = read_artist(tag);
    let album = read_album(tag);
    let cover = match read_first_picture(tag) {
        Some(data) => Some(render_cover_image(data.as_slice())),
        None => None,
    };
    render_fields(title, artist, album, cover)
}

/// A track without title, artist and album is shown with the three
/// placeholders, whatever its cover; and without a picture it is shown.
pub proof fn lemma_missing_texts_show_placeholders(cover: Option<Result<CoverView, CoverError>>)
    ensures
        rendered(None, None, None, cover) matches Ok(track) ==> track.title == "Unknown Title"@
            && track.artist == "Unknown Artist"@ && track.album == "Unknown Album"@,
        rendered(None, None, None, None).is_ok(),
{
}

/// A text that the tag holds is shown as it is, and a cover that was
/// decoded is the cover shown.
pub proof fn lemma_present_fields_shown(
    title: Seq<char>,
    artist: Seq<char>,
    album: Seq<char>,
    cover: CoverView,
)
    ensures
        rendered(Some(title), Some(artist), Some(album), None) == Ok::<TrackView, CoverError>(
            TrackView { title, artist, album, cover: None },
        ),
        rendered(Some(title), Some(artist), Some(album), Some(Ok(cover))) == Ok::<
            TrackView,
            CoverError,
        >(TrackView { title, artist, album, cover: Some(cover) }),
{
}

} // verus!
