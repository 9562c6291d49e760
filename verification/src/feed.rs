//! Reading a channel's feed: from the text that the feed host serves to
//! the videos that it lists.

use crate::json::{as_items, as_text, json_member, json_of, json_text, member, Json};
use crate::model::{first_where, lemma_first_where_is, result_view};
use crate::text::{chars_of, find_text, holds_text};
use crate::timestamp::{datetime_of_text, parse_datetime};
use crate::video::{Video, VideoView};
use vstd::prelude::*;
use vstd::string::StringExecFns;

verus! {

/// The most elements that a feed may open. The converter goes one call
/// deeper for each element that opens inside another; a feed cannot nest
/// deeper than it opens elements, so no feed that is read takes the
/// converter deeper than this. A feed of the host's usual fifteen
/// entries opens about three hundred.
pub const MAX_ELEMENTS: usize = 512;

/// The opening of an element whose name is the key under which the
/// converter collects character data.
pub const CHARACTER_DATA_ELEMENT: &'static str = "<#cdata";

/// Why a feed gave no videos.
#[derive(Debug)]
pub enum FetchError {
    /// The feed could not be requested, or its answer could not be read.
    Transport(String),
    /// The text opens more than `MAX_ELEMENTS` elements.
    Oversized,
    /// The text names an element `#cdata`, which no feed does.
    Unsupported,
    /// The text could not be converted to a document.
    Unreadable,
    /// The document names no author: `feed.author.name` is no text.
    MissingAuthor,
    /// The entry at this position lacks a title, a link or a time of
    /// publication, or that time is no date and time.
    BadEntry(usize),
}

/// A fetch failure as a mathematical value.
pub enum FetchErrorView {
    Transport(Seq<char>),
    Oversized,
    Unsupported,
    Unreadable,
    MissingAuthor,
    BadEntry(int),
}

impl View for FetchError {
    type V = FetchErrorView;

    open spec fn view(&self) -> FetchErrorView {
        match self {
            FetchError::Transport(reason) => FetchErrorView::Transport(reason@),
            FetchError::Oversized => FetchErrorView::Oversized,
            FetchError::Unsupported => FetchErrorView::Unsupported,
            FetchError::Unreadable => FetchErrorView::Unreadable,
            FetchError::MissingAuthor => FetchErrorView::MissingAuthor,
            FetchError::BadEntry(index) => FetchErrorView::BadEntry(*index as int),
        }
    }
}

impl DeepView for FetchError {
    type V = FetchErrorView;

    open spec fn deep_view(&self) -> FetchErrorView {
        self@
    }
}

/// The sentence that reports a fetch failure.
pub open spec fn fetch_error_text(e: FetchErrorView) -> Seq<char> {
    match e {
        FetchErrorView::Transport(reason) => reason,
        FetchErrorView::Oversized => "The feed opens too many elements"@,
        FetchErrorView::Unsupported => "The feed names an element that cannot be read"@,
        FetchErrorView::Unreadable => "The feed could not be converted"@,
        FetchErrorView::MissingAuthor => "The feed names no author"@,
        FetchErrorView::BadEntry(_) => "An entry of the feed cannot be read"@,
    }
}

impl FetchError {
    /// The sentence that reports the failure.
    pub fn message(&self) -> (text: String)
        ensures
            text@ == fetch_error_text(self@),
    {
        match self {
            FetchError::Transport(reason) => reason.clone(),
            FetchError::Oversized => String::from_str("The feed opens too many elements"),
            FetchError::Unsupported => String::from_str(
                "The feed names an element that cannot be read",
            ),
            FetchError::Unreadable => String::from_str("The feed could not be converted"),
            FetchError::MissingAuthor => String::from_str("The feed names no author"),
            FetchError::BadEntry(_) => String::from_str("An entry of the feed cannot be read"),
        }
    }
}

/// Whether an element opens at position `at` of `xml`: a `<` stands
/// there, and what follows is not the `/` of a closing tag, nor the `!`
/// or `?` of a comment, a section of character data or an instruction.
pub open spec fn opens_at(xml: Seq<char>, at: int) -> bool {
    &&& 0 <= at < xml.len()
    &&& xml[at] == '<'
    &&& at + 1 < xml.len() ==> xml[at + 1] != '/' && xml[at + 1] != '!' && xml[at + 1] != '?'
}

/// At how many of the first `upto` positions of `xml` an element opens.
pub open spec fn openings(xml: Seq<char>, upto: int) -> nat
    decreases upto,
{
    if upto <= 0 {
        0
    } else {
        openings(xml, upto - 1) + if opens_at(xml, upto - 1) {
            1nat
        } else {
            0nat
        }
    }
}

/// Whether a feed's text is within what is read: `Ok` where it opens at
/// most `MAX_ELEMENTS` elements and names no element `#cdata`.
pub open spec fn feed_limits(xml: Seq<char>) -> Result<(), FetchErrorView> {
    if openings(xml, xml.len() as int) > MAX_ELEMENTS {
        Err(FetchErrorView::Oversized)
    } else if holds_text(xml, CHARACTER_DATA_ELEMENT@) {
        Err(FetchErrorView::Unsupported)
    } else {
        Ok(())
    }
}

/// The JSON document that the converter makes of an XML text, where it
/// makes one.
pub uninterp spec fn document_of_xml(xml: Seq<char>) -> Option<Json>;

/// `xmltojson::to_json`: the XML text as a JSON document. What comes out
/// depends on the text alone. The converter calls itself for each
/// element that opens inside another, and it takes what it holds under
/// the key `#cdata` for a text; `feed_limits` bounds the depth of the
/// calls and rules out an element of that name.
#[verifier::external_body]
pub(crate) fn xml_to_json(xml: &str) -> (doc: Option<serde_json::Value>)
    requires
        feed_limits(xml@) is Ok,
    ensures
        match doc {
            Some(value) => document_of_xml(xml@) == Some(json_of(value)),
            None => document_of_xml(xml@) is None,
        },
{
    xmltojson::to_json(xml).ok()
}

/// The videos that the feed with the text `xml` lists, or why it lists
/// none.
pub open spec fn rss_videos(xml: Seq<char>) -> Result<Seq<VideoView>, FetchErrorView> {
    match feed_limits(xml) {
        Err(e) => Err(e),
        Ok(_) => match document_of_xml(xml) {
            None => Err(FetchErrorView::Unreadable),
            Some(doc) => feed_videos(doc),
        },
    }
}

/// The member of `doc` reached by going down through `first` and `second`.
pub open spec fn json_member2(doc: Json, first: Seq<char>, second: Seq<char>) -> Option<Json> {
    match json_member(doc, first) {
        Some(inner) => json_member(inner, second),
        None => None,
    }
}

/// The display name of the channel that the feed `doc` belongs to.
pub open spec fn feed_author(doc: Json) -> Option<Seq<char>> {
    match json_member2(doc, "feed"@, "author"@) {
        Some(author) => match json_member(author, "name"@) {
            Some(name) => json_text(name),
            None => None,
        },
        None => None,
    }
}

/// The entries that the feed `doc` lists, in the feed's order. The
/// document holds several entries as an array under `feed.entry`, one
/// entry as itself, and no entry as no member at all.
pub open spec fn feed_entries(doc: Json) -> Seq<Json> {
    match json_member2(doc, "feed"@, "entry"@) {
        None => Seq::empty(),
        Some(Json::Array(entries)) => entries,
        Some(entry) => seq![entry],
    }
}

/// The text of the member `key` of `entry`.
pub open spec fn member_text(entry: Json, key: Seq<char>) -> Option<Seq<char>> {
    match json_member(entry, key) {
        Some(value) => json_text(value),
        None => None,
    }
}

/// The address that `entry` links to: the `href` attribute of its link.
pub open spec fn entry_link(entry: Json) -> Option<Seq<char>> {
    match json_member2(entry, "link"@, "@href"@) {
        Some(value) => json_text(value),
        None => None,
    }
}

/// The video that `entry` describes on the channel `author`, where the
/// entry has a title, a link and a time of publication that can be read.
pub open spec fn entry_video(author: Seq<char>, entry: Json) -> Option<VideoView> {
    match (member_text(entry, "title"@), member_text(entry, "published"@), entry_link(entry)) {
        (Some(title), Some(published), Some(link)) => match datetime_of_text(published) {
            Some(published_at) => Some(VideoView { channel: author, title, link, published_at }),
            None => None,
        },
        _ => None,
    }
}

/// The videos of the entries of `entries`, where each describes one.
pub open spec fn entry_videos(author: Seq<char>, entries: Seq<Json>) -> Seq<VideoView> {
    Seq::new(entries.len(), |i: int| entry_video(author, entries[i])->Some_0)
}

/// The test for describing no video on the channel `author`.
pub open spec fn is_bad_entry(author: Seq<char>) -> spec_fn(Json) -> bool {
    |entry: Json| entry_video(author, entry) is None
}

/// The position of the first of `entries` that describes no video, or
/// their number where each describes one.
pub open spec fn first_bad_entry(author: Seq<char>, entries: Seq<Json>) -> int {
    first_where(entries, is_bad_entry(author))
}

/// The videos that `entries` describe on the channel `author`, in their
/// order, or the first entry that describes none.
pub open spec fn listed_videos(author: Seq<char>, entries: Seq<Json>) -> Result<
    Seq<VideoView>,
    FetchErrorView,
> {
    let bad = first_bad_entry(author, entries);
    if bad < entries.len() {
        Err(FetchErrorView::BadEntry(bad))
    } else {
        Ok(entry_videos(author, entries))
    }
}

/// The videos that the feed `doc` lists, in the feed's order, or why it
/// lists none: the author is looked for first, then each entry in turn.
/// A feed without entries lists no videos, and that is no failure.
pub open spec fn feed_videos(doc: Json) -> Result<Seq<VideoView>, FetchErrorView> {
    match feed_author(doc) {
        None => Err(FetchErrorView::MissingAuthor),
        Some(author) => listed_videos(author, feed_entries(doc)),
    }
}

/// The member of `doc` reached by going down through `first` and `second`.
fn member2<'a>(doc: &'a serde_json::Value, first: &str, second: &str) -> (found: Option<
    &'a serde_json::Value,
>)
    ensures
        match found {
            Some(child) => json_member2(json_of(*doc), first@, second@) == Some(json_of(*child)),
            None => json_member2(json_of(*doc), first@, second@) is None,
        },
{
    match member(doc, first) {
        Some(inner) => member(inner, second),
        None => None,
    }
}

/// The text of the member `key` of `entry`.
fn text_of_member<'a>(entry: &'a serde_json::Value, key: &str) -> (found: Option<&'a str>)
    ensures
        match found {
            Some(text) => member_text(json_of(*entry), key@) == Some(text@),
            None => member_text(json_of(*entry), key@) is None,
        },
{
    match member(entry, key) {
        Some(value) => as_text(value),
        None => None,
    }
}

/// The video that `entry` describes on the channel `author`, if it
/// describes one.
pub fn video_of_entry(author: &str, entry: &serde_json::Value) -> (video: Option<Video>)
    ensures
        video.deep_view() == entry_video(author@, json_of(*entry)),
{
    let title = match text_of_member(entry, "title") {
        Some(title) => title,
        None => { return None; },
    };
    let published = match text_of_member(entry, "published") {
        Some(published) => published,
        None => { return None; },
    };
    let published_at = match parse_datetime(published) {
        Some(at) => at,
        None => { return None; },
    };
    let link = match member2(entry, "link", "@href") {
        Some(href) => match as_text(href) {
            Some(link) => link,
            None => { return None; },
        },
        None => { return None; },
    };
    Some(
        Video {
            channel: author.to_owned(),
            title: title.to_owned(),
            link: link.to_owned(),
            published_at,
        },
    )
}

/// The videos that the entries of `entries` describe on the channel
/// `author`, or the first entry that describes none.
pub fn videos_of_entries(author: &str, entries: &Vec<serde_json::Value>) -> (videos: Result<
    Vec<Video>,
    FetchError,
>)
    ensures
        result_view(videos) == listed_videos(
            author@,
            entries@.map_values(|item: serde_json::Value| json_of(item)),
        ),
{
    let ghost docs = entries@.map_values(|item: serde_json::Value| json_of(item));
    let mut videos: Vec<Video> = Vec::new();
    let mut i: usize = 0;
    while i < entries.len()
        invariant
            i <= entries.len(),
            docs == entries@.map_values(|item: serde_json::Value| json_of(item)),
            videos.len() == i,
            forall|k: int|
                0 <= k < i ==> entry_video(author@, #[trigger] docs[k]) == Some(videos@[k]@),
        decreases entries.len() - i,
    {
        match video_of_entry(author, &entries[i]) {
            Some(video) => {
                videos.push(video);
            },
            None => {
                proof {
                    assert(docs[i as int] == json_of(entries@[i as int]));
                    lemma_first_where_is(docs, is_bad_entry(author@), i as int);
                }
                return Err(FetchError::BadEntry(i));
            },
        }
        i = i + 1;
    }
    proof {
        lemma_first_where_is(docs, is_bad_entry(author@), docs.len() as int);
        assert(videos.deep_view() =~= entry_videos(author@, docs));
    }
    Ok(videos)
}

/// The videos that a feed lists, from the feed as a JSON document. The
/// channel's name is that of the feed's author; each entry gives a title,
/// a link and a time of publication. A feed may list several entries,
/// one, or none. One entry that cannot be read fails the whole feed.
pub fn videos_from_json(doc: &serde_json::Value) -> (videos: Result<Vec<Video>, FetchError>)
    ensures
        result_view(videos) == feed_videos(json_of(*doc)),
{
    let author = match member2(doc, "feed", "author") {
        Some(author) => match text_of_member(author, "name") {
            Some(name) => name,
            None => { return Err(FetchError::MissingAuthor); },
        },
        None => { return Err(FetchError::MissingAuthor); },
    };
    let listed = match member2(doc, "feed", "entry") {
        Some(listed) => listed,
        None => {
            let videos: Vec<Video> = Vec::new();
            proof {
                let none = Seq::<Json>::empty();
                lemma_first_where_is(none, is_bad_entry(author@), 0);
                assert(videos.deep_view() =~= entry_videos(author@, none));
            }
            return Ok(videos);
        },
    };
    match as_items(listed) {
        Some(entries) => videos_of_entries(author, entries),
        None => {
            let ghost one = seq![json_of(*listed)];
            match video_of_entry(author, listed) {
                Some(video) => {
                    let mut videos: Vec<Video> = Vec::new();
                    videos.push(video);
                    proof {
                        lemma_first_where_is(one, is_bad_entry(author@), 1);
                        assert(videos.deep_view() =~= entry_videos(author@, one));
                    }
                    Ok(videos)
                },
                None => {
                    proof {
                        lemma_first_where_is(one, is_bad_entry(author@), 0);
                    }
                    Err(FetchError::BadEntry(0))
                },
            }
        },
    }
}

/// At how many positions of `xml` an element opens.
pub fn count_openings(xml: &Vec<char>) -> (n: usize)
    ensures
        n == openings(xml@, xml.len() as int),
{
    let mut n: usize = 0;
    let mut i: usize = 0;
    while i < xml.len()
        invariant
            i <= xml.len(),
            n <= i,
            n == openings(xml@, i as int),
        decreases xml.len() - i,
    {
        if xml[i] == '<' {
            if i + 1 == xml.len() {
                n = n + 1;
            } else {
                let next = xml[i + 1];
                if next != '/' && next != '!' && next != '?' {
                    n = n + 1;
                }
            }
        }
        i = i + 1;
    }
    n
}

/// Whether a feed's text is within what is read.
pub fn check_feed_limits(xml: &str) -> (checked: Result<(), FetchError>)
    ensures
        result_view(checked) == feed_limits(xml@),
{
    let chars = chars_of(xml);
    if count_openings(&chars) > MAX_ELEMENTS {
        return Err(FetchError::Oversized);
    }
    let pattern = chars_of(CHARACTER_DATA_ELEMENT);
    if find_text(&chars, &pattern) {
        return Err(FetchError::Unsupported);
    }
    Ok(())
}

impl Video {
    /// The videos that a feed lists, from the text that the feed host
    /// serves.
    pub fn parse_rss(rss_data: String) -> (videos: Result<Vec<Video>, FetchError>)
        ensures
            result_view(videos) == rss_videos(rss_data@),
    {
        match check_feed_limits(rss_data.as_str()) {
            Err(e) => Err(e),
            Ok(_) => match xml_to_json(rss_data.as_str()) {
                None => Err(FetchError::Unreadable),
                Some(doc) => videos_from_json(&doc),
            },
        }
    }
}

} // verus!
