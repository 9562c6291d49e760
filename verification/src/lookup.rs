//! Resolving a handle to a channel: what is asked of the video
//! platform, what its answer says, and what a client is told.

use crate::channel::{lookup_address, Channel, API_HOST};
use crate::json::{
    as_integer, as_items, as_text, json_i64, json_items, json_member, json_of, json_of_text,
    json_quote, json_quoted, json_text, member, parse_json, Json,
};
use crate::model::result_view;
use vstd::prelude::*;
use vstd::string::StringExecFns;

verus! {

/// What a handle resolves to.
#[derive(Debug)]
pub struct ChannelData {
    pub channel_id: String,
    pub channel_name: String,
}

/// Channel data as a mathematical value.
pub struct ChannelDataView {
    pub channel_id: Seq<char>,
    pub channel_name: Seq<char>,
}

impl View for ChannelData {
    type V = ChannelDataView;

    open spec fn view(&self) -> ChannelDataView {
        ChannelDataView { channel_id: self.channel_id@, channel_name: self.channel_name@ }
    }
}

impl DeepView for ChannelData {
    type V = ChannelDataView;

    open spec fn deep_view(&self) -> ChannelDataView {
        self@
    }
}

/// Why a handle was not resolved.
#[derive(Debug)]
pub enum LookupError {
    /// No handle was given.
    MissingHandle,
    /// The platform answered with this status in place of 200.
    Failed(u16),
    /// No channel has this handle.
    NotFound(String),
    /// The platform takes no more requests for now.
    Throttled,
    /// The answer could not be read.
    Malformed,
}

/// A failed lookup as a mathematical value.
pub enum LookupErrorView {
    MissingHandle,
    Failed(u16),
    NotFound(Seq<char>),
    Throttled,
    Malformed,
}

impl View for LookupError {
    type V = LookupErrorView;

    open spec fn view(&self) -> LookupErrorView {
        match self {
            LookupError::MissingHandle => LookupErrorView::MissingHandle,
            LookupError::Failed(status) => LookupErrorView::Failed(*status),
            LookupError::NotFound(handle) => LookupErrorView::NotFound(handle@),
            LookupError::Throttled => LookupErrorView::Throttled,
            LookupError::Malformed => LookupErrorView::Malformed,
        }
    }
}

impl DeepView for LookupError {
    type V = LookupErrorView;

    open spec fn deep_view(&self) -> LookupErrorView {
        self@
    }
}

/// The address at which the platform resolves `handle` for the holder of
/// `api_key`.
pub open spec fn platform_address(api_key: Seq<char>, handle: Seq<char>) -> Seq<char> {
    "https://www.googleapis.com/youtube/v3/channels?key="@ + api_key + "&forHandle="@ + handle
        + "&part=snippet,id&order=date&maxResults=1"@
}

/// The member `key` of `doc`, as a text.
pub open spec fn text_member(doc: Json, key: Seq<char>) -> Option<Seq<char>> {
    match json_member(doc, key) {
        Some(value) => json_text(value),
        None => None,
    }
}

/// How many channels the platform's answer `doc` reports.
pub open spec fn total_results(doc: Json) -> Option<int> {
    match json_member(doc, "pageInfo"@) {
        Some(info) => match json_member(info, "totalResults"@) {
            Some(total) => json_i64(total),
            None => None,
        },
        None => None,
    }
}

/// The first channel that the platform's answer `doc` lists: its
/// identifier and the title of its snippet.
pub open spec fn first_item(doc: Json) -> Option<ChannelDataView> {
    match json_member(doc, "items"@) {
        Some(items) => match json_items(items) {
            Some(list) => if list.len() > 0 {
                match (text_member(list[0], "id"@), json_member(list[0], "snippet"@)) {
                    (Some(channel_id), Some(snippet)) => match text_member(snippet, "title"@) {
                        Some(channel_name) => Some(ChannelDataView { channel_id, channel_name }),
                        None => None,
                    },
                    _ => None,
                }
            } else {
                None
            },
            None => None,
        },
        None => None,
    }
}

/// What the platform's answer `doc` resolves a handle to: nothing where
/// it reports no channel, and else the first channel that it lists.
pub open spec fn platform_answer(doc: Json) -> Result<Option<ChannelDataView>, LookupErrorView> {
    match total_results(doc) {
        None => Err(LookupErrorView::Malformed),
        Some(total) => if total == 0 {
            Ok(None)
        } else {
            match first_item(doc) {
                Some(data) => Ok(Some(data)),
                None => Err(LookupErrorView::Malformed),
            }
        },
    }
}

/// What an answer of the platform with `status` and `body` resolves a
/// handle to.
pub open spec fn platform_result(status: u16, body: Seq<char>) -> Result<
    Option<ChannelDataView>,
    LookupErrorView,
> {
    if status != 200 {
        Err(LookupErrorView::Failed(status))
    } else {
        match json_of_text(body) {
            None => Err(LookupErrorView::Malformed),
            Some(doc) => platform_answer(doc),
        }
    }
}

/// What a client is told of resolved channel data: an object with the
/// identifier and the name.
pub open spec fn channel_data_text(data: ChannelDataView) -> Seq<char> {
    "{\"channel_id\":"@ + json_quoted(data.channel_id) + ",\"channel_name\":"@ + json_quoted(
        data.channel_name,
    ) + "}"@
}

/// What the resolving service's answer `doc` says: the identifier and
/// the name of the channel.
pub open spec fn service_answer(doc: Json) -> Option<ChannelDataView> {
    match (text_member(doc, "channel_id"@), text_member(doc, "channel_name"@)) {
        (Some(channel_id), Some(channel_name)) => Some(
            ChannelDataView { channel_id, channel_name },
        ),
        _ => None,
    }
}

/// What an answer of the resolving service with `status` and `body`
/// says of `handle`.
pub open spec fn service_result(handle: Seq<char>, status: u16, body: Seq<char>) -> Result<
    ChannelDataView,
    LookupErrorView,
> {
    if status == 404 {
        Err(LookupErrorView::NotFound(handle))
    } else if status == 503 {
        Err(LookupErrorView::Throttled)
    } else {
        match json_of_text(body) {
            None => Err(LookupErrorView::Malformed),
            Some(doc) => match service_answer(doc) {
                Some(data) => Ok(data),
                None => Err(LookupErrorView::Malformed),
            },
        }
    }
}

/// The sentence that reports a failed lookup.
pub open spec fn lookup_error_text(e: LookupErrorView) -> Seq<char> {
    match e {
        LookupErrorView::MissingHandle => "Missing handle"@,
        LookupErrorView::Failed(status) => "Failed to fetch data"@,
        LookupErrorView::NotFound(handle) => "Channel with handle '"@ + handle + "' not found!"@,
        LookupErrorView::Throttled =>
            "It looks like YouTube API calls are currently throttled.\n\nYou can try again later or find the channel data manually:\nhttps://github.com/pawurb/yt-sub-rs#manually-finding-an-rss-channel_id"@,
        LookupErrorView::Malformed => "The answer could not be read"@,
    }
}

impl LookupError {
    /// The sentence that reports the failure.
    pub fn message(&self) -> (text: String)
        ensures
            text@ == lookup_error_text(self@),
    {
        match self {
            LookupError::MissingHandle => String::from_str("Missing handle"),
            LookupError::Failed(_) => String::from_str("Failed to fetch data"),
            LookupError::NotFound(handle) => {
                let mut text = String::from_str("Channel with handle '");
                text.append(handle.as_str());
                text.append("' not found!");
                text
            },
            LookupError::Throttled => String::from_str(
                "It looks like YouTube API calls are currently throttled.\n\nYou can try again later or find the channel data manually:\nhttps://github.com/pawurb/yt-sub-rs#manually-finding-an-rss-channel_id",
            ),
            LookupError::Malformed => String::from_str("The answer could not be read"),
        }
    }
}

/// The member `key` of `doc`, as a text.
fn text_of<'a>(doc: &'a serde_json::Value, key: &str) -> (found: Option<&'a str>)
    ensures
        match found {
            Some(text) => text_member(json_of(*doc), key@) == Some(text@),
            None => text_member(json_of(*doc), key@) is None,
        },
{
    match member(doc, key) {
        Some(value) => as_text(value),
        None => None,
    }
}

/// The address at which the platform resolves `handle` for the holder of
/// `api_key`, or why nothing is asked: no handle was given.
pub fn platform_url(handle: Option<String>, api_key: &str) -> (url: Result<String, LookupError>)
    ensures
        match handle {
            Some(h) => result_view(url) == Ok::<_, LookupErrorView>(platform_address(api_key@, h@)),
            None => result_view(url) == Err::<Seq<char>, _>(LookupErrorView::MissingHandle),
        },
{
    match handle {
        None => Err(LookupError::MissingHandle),
        Some(h) => {
            let mut url = String::from_str("https://www.googleapis.com/youtube/v3/channels?key=");
            url.append(api_key);
            url.append("&forHandle=");
            url.append(h.as_str());
            url.append("&part=snippet,id&order=date&maxResults=1");
            Ok(url)
        },
    }
}

/// What the platform's answer, as a JSON document, resolves a handle to.
pub fn channel_data_from_json(doc: &serde_json::Value) -> (data: Result<
    Option<ChannelData>,
    LookupError,
>)
    ensures
        result_view(data) == platform_answer(json_of(*doc)),
{
    let total = match member(doc, "pageInfo") {
        Some(info) => match member(info, "totalResults") {
            Some(total) => total,
            None => { return Err(LookupError::Malformed); },
        },
        None => { return Err(LookupError::Malformed); },
    };
    match as_integer(total) {
        Some(0) => { return Ok(None); },
        Some(_) => {},
        None => { return Err(LookupError::Malformed); },
    }
    let list = match member(doc, "items") {
        Some(items) => match as_items(items) {
            Some(list) => list,
            None => { return Err(LookupError::Malformed); },
        },
        None => { return Err(LookupError::Malformed); },
    };
    if list.len() == 0 {
        return Err(LookupError::Malformed);
    }
    let first = &list[0];
    proof {
        let docs = list@.map_values(|item: serde_json::Value| json_of(item));
        assert(docs[0] == json_of(list@[0]));
    }
    let channel_id = match text_of(first, "id") {
        Some(id) => id,
        None => { return Err(LookupError::Malformed); },
    };
    let channel_name = match member(first, "snippet") {
        Some(snippet) => match text_of(snippet, "title") {
            Some(title) => title,
            None => { return Err(LookupError::Malformed); },
        },
        None => { return Err(LookupError::Malformed); },
    };
    Ok(
        Some(
            ChannelData {
                channel_id: channel_id.to_owned(),
                channel_name: channel_name.to_owned(),
            },
        ),
    )
}

/// What an answer of the platform with `status` and `body` resolves a
/// handle to.
pub fn get_channel_data(status: u16, body: &str) -> (data: Result<Option<ChannelData>, LookupError>)
    ensures
        result_view(data) == platform_result(status, body@),
{
    if status != 200 {
        return Err(LookupError::Failed(status));
    }
    match parse_json(body) {
        None => Err(LookupError::Malformed),
        Some(doc) => channel_data_from_json(&doc),
    }
}

/// What a client is told of resolved channel data.
pub fn channel_data(data: &ChannelData) -> (text: String)
    ensures
        text@ == channel_data_text(data@),
{
    let mut text = String::from_str("{\"channel_id\":");
    text.append(json_quote(data.channel_id.as_str()).as_str());
    text.append(",\"channel_name\":");
    text.append(json_quote(data.channel_name.as_str()).as_str());
    text.append("}");
    text
}

/// What the resolving service's answer, as a JSON document, says.
pub fn service_data_from_json(doc: &serde_json::Value) -> (data: Option<ChannelData>)
    ensures
        data.deep_view() == service_answer(json_of(*doc)),
{
    let channel_id = match text_of(doc, "channel_id") {
        Some(id) => id,
        None => { return None; },
    };
    let channel_name = match text_of(doc, "channel_name") {
        Some(name) => name,
        None => { return None; },
    };
    Some(ChannelData { channel_id: channel_id.to_owned(), channel_name: channel_name.to_owned() })
}

impl Channel {
    /// The address at which `handle` is resolved, on `host` or, with none
    /// given, on the usual service.
    pub fn data_url(handle: &str, host: Option<&str>) -> (url: String)
        ensures
            url@ == lookup_address(
                match host {
                    Some(h) => h@,
                    None => API_HOST@,
                },
                handle@,
            ),
    {
        let mut url = match host {
            Some(h) => String::from_str(h),
            None => String::from_str(API_HOST),
        };
        url.append("/channel_data/");
        url.append(handle);
        url
    }

    /// What the resolving service's answer with `status` and `body`
    /// says of `handle`: the channel's identifier and name.
    pub fn get_data(handle: &str, status: u16, body: &str) -> (data: Result<
        ChannelData,
        LookupError,
    >)
        ensures
            result_view(data) == service_result(handle@, status, body@),
    {
        if status == 404 {
            return Err(LookupError::NotFound(String::from_str(handle)));
        }
        if status == 503 {
            return Err(LookupError::Throttled);
        }
        match parse_json(body) {
            None => Err(LookupError::Malformed),
            Some(doc) => match service_data_from_json(&doc) {
                Some(data) => Ok(data),
                None => Err(LookupError::Malformed),
            },
        }
    }
}

} // verus!
