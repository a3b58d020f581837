//! The tag record kept in each audio file, as the library sees it.
use vstd::prelude::*;
use crate::track::OtherError;

verus! {

/// A release timestamp: a year and, as far as the source text gave them,
/// month, day, hour, minute and second.
#[derive(Clone, Copy, Debug, PartialEq, Eq, Structural)]
pub struct ReleaseDate {
    pub year: i32,
    pub month: Option<u8>,
    pub day: Option<u8>,
    pub hour: Option<u8>,
    pub minute: Option<u8>,
    pub second: Option<u8>,
}

/// The timestamp that the tag codec parses out of `s`, or `None` where it
/// finds none.
pub uninterp spec fn timestamp_of(s: Seq<char>) -> Option<ReleaseDate>;

/// Relies on id3's `Timestamp::from_str` to parse a release date; its fields
/// are copied one for one.
#[verifier::external_body]
pub(crate) fn parse_timestamp(s: &str) -> (r: Option<ReleaseDate>)
    ensures
        r == timestamp_of(s@),
{
    match <id3::Timestamp as std::str::FromStr>::from_str(s) {
        Ok(t) => Some(ReleaseDate {
            year: t.year,
            month: t.month,
            day: t.day,
            hour: t.hour,
            minute: t.minute,
            second: t.second,
        }),
        Err(_) => None,
    }
}

/// The metadata attached to one audio file.
#[derive(Debug)]
pub struct TagRecord {
    pub title: Option<String>,
    pub artist: Option<String>,
    pub released: Option<ReleaseDate>,
    /// Link to the audio source's web page.
    pub source_link: Option<String>,
    /// Link to the audio file itself.
    pub file_link: Option<String>,
    /// Free text; holds the track identifier of the file it lives in.
    pub custom_text: Option<String>,
}

/// A string option seen as an option of character sequences.
pub open spec fn opt_view(o: Option<String>) -> Option<Seq<char>> {
    match o {
        Some(s) => Some(s@),
        None => None,
    }
}

/// The mathematical content of a [`TagRecord`].
pub struct TagView {
    pub title: Option<Seq<char>>,
    pub artist: Option<Seq<char>>,
    pub released: Option<ReleaseDate>,
    pub source_link: Option<Seq<char>>,
    pub file_link: Option<Seq<char>>,
    pub custom_text: Option<Seq<char>>,
}

impl View for TagRecord {
    type V = TagView;

    open spec fn view(&self) -> TagView {
        TagView {
            title: opt_view(self.title),
            artist: opt_view(self.artist),
            released: self.released,
            source_link: opt_view(self.source_link),
            file_link: opt_view(self.file_link),
            custom_text: opt_view(self.custom_text),
        }
    }
}

/// The record with no field set.
pub open spec fn empty_tag_view() -> TagView {
    TagView {
        title: None,
        artist: None,
        released: None,
        source_link: None,
        file_link: None,
        custom_text: None,
    }
}

impl TagRecord {
    /// A record with no field set.
    pub fn empty() -> (r: TagRecord)
        ensures
            r@ == empty_tag_view(),
    {
        TagRecord {
            title: None,
            artist: None,
            released: None,
            source_link: None,
            file_link: None,
            custom_text: None,
        }
    }

    /// Whether the record carries a title.
    pub fn has_title(&self) -> (r: bool)
        ensures
            r == self.title.is_some(),
    {
        self.title.is_some()
    }
}

/// What reading the tag of one file gave.
#[derive(Debug)]
pub enum TagRead {
    /// A tag was found and decoded.
    Found(TagRecord),
    /// The file carries no tag.
    NoTag,
    /// The file carries a tag that could not be decoded.
    Unparsable,
    /// Any other read failure.
    Other(OtherError),
}

/// The record to start a merge from: the one found, or an empty one where the
/// file has no tag or an unreadable one; `None` on any other read failure.
pub open spec fn base_tag(read: TagRead) -> Option<TagView> {
    match read {
        TagRead::Found(t) => Some(t@),
        TagRead::NoTag | TagRead::Unparsable => Some(empty_tag_view()),
        TagRead::Other(_) => None,
    }
}

/// Whether a file whose tag read gave `read` still needs metadata: its tag
/// has no title, or it has no usable tag at all.
pub open spec fn needs_metadata(read: TagRead) -> bool {
    match read {
        TagRead::Found(t) => t.title.is_none(),
        TagRead::NoTag | TagRead::Unparsable => true,
        TagRead::Other(_) => false,
    }
}

impl TagRead {
    /// Whether the file this read came from still needs metadata.
    pub fn needs_metadata(&self) -> (r: bool)
        ensures
            r == needs_metadata(*self),
    {
        match self {
            TagRead::Found(t) => !t.has_title(),
            TagRead::NoTag | TagRead::Unparsable => true,
            TagRead::Other(_) => false,
        }
    }
}

} // verus!
