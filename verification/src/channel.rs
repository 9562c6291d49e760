//! Followed channels and the addresses under which they are reached.

use crate::feed::{rss_videos, FetchError, FetchErrorView};
use crate::model::result_view;
use crate::text::same_text;
use crate::timestamp::Timestamp;
use crate::video::{filter_fresh, fresh_videos, Video, VideoView};
use vstd::prelude::*;
use vstd::string::StringExecFns;

verus! {

/// The host that serves the channels' feeds.
pub const RSS_HOST: &'static str = "https://www.youtube.com";

/// The host of the service that resolves a handle to a channel.
pub const API_HOST: &'static str = "https://yt-sub-api.apki.workers.dev";

/// A followed channel.
#[derive(Debug)]
pub struct Channel {
    /// The human-readable name, such as `@name`.
    pub handle: String,
    /// The display name.
    pub description: String,
    /// The stable identifier under which the feed is served.
    pub channel_id: String,
}

/// A channel as a mathematical value.
pub struct ChannelView {
    pub handle: Seq<char>,
    pub description: Seq<char>,
    pub channel_id: Seq<char>,
}

impl View for Channel {
    type V = ChannelView;

    open spec fn view(&self) -> ChannelView {
        ChannelView {
            handle: self.handle@,
            description: self.description@,
            channel_id: self.channel_id@,
        }
    }
}

impl DeepView for Channel {
    type V = ChannelView;

    open spec fn deep_view(&self) -> ChannelView {
        self@
    }
}

impl Clone for Channel {
    fn clone(&self) -> (copy: Self)
        ensures
            copy == *self,
    {
        Channel {
            handle: self.handle.clone(),
            description: self.description.clone(),
            channel_id: self.channel_id.clone(),
        }
    }
}

impl PartialEq for Channel {
    fn eq(&self, other: &Self) -> (same: bool) {
        self.handle == other.handle && self.description == other.description && self.channel_id
            == other.channel_id
    }
}

impl vstd::std_specs::cmp::PartialEqSpecImpl for Channel {
    open spec fn obeys_eq_spec() -> bool {
        true
    }

    open spec fn eq_spec(&self, other: &Self) -> bool {
        self.handle@ == other.handle@ && self.description@ == other.description@
            && self.channel_id@ == other.channel_id@
    }
}

/// The address of the feed of the channel `channel_id` on `host`.
pub open spec fn feed_address(host: Seq<char>, channel_id: Seq<char>) -> Seq<char> {
    host + "/feeds/videos.xml?channel_id="@ + channel_id
}

/// The address of a channel's page.
pub open spec fn page_address(handle: Seq<char>) -> Seq<char> {
    "https://www.youtube.com/"@ + handle
}

/// The address at which `host` resolves `handle`.
pub open spec fn lookup_address(host: Seq<char>, handle: Seq<char>) -> Seq<char> {
    host + "/channel_data/"@ + handle
}

/// The lines that describe a channel.
pub open spec fn channel_card(c: ChannelView) -> Seq<char> {
    "name: "@ + c.description + "\nhandle: "@ + c.handle + "\nchannel_id: "@ + c.channel_id
        + "\nchannel_url: "@ + page_address(c.handle) + "\nRSS feed: "@ + feed_address(
        RSS_HOST@,
        c.channel_id,
    )
}

/// The videos of the feed with the text `rss` that were published
/// strictly after `last_run_at`, or why the feed gave none.
pub open spec fn fresh_in_feed(rss: Seq<char>, last_run_at: Timestamp) -> Result<
    Seq<VideoView>,
    FetchErrorView,
> {
    match rss_videos(rss) {
        Ok(videos) => Ok(fresh_videos(videos, last_run_at)),
        Err(e) => Err(e),
    }
}

/// The address of the feed of `channel_id` on `host`.
pub fn feed_url(host: &str, channel_id: &str) -> (url: String)
    ensures
        url@ == feed_address(host@, channel_id@),
{
    let mut url = String::from_str(host);
    url.append("/feeds/videos.xml?channel_id=");
    url.append(channel_id);
    url
}

impl Channel {
    /// The address of the channel's page.
    pub fn url(&self) -> (url: String)
        ensures
            url@ == page_address(self.handle@),
    {
        let mut url = String::from_str("https://www.youtube.com/");
        url.append(self.handle.as_str());
        url
    }

    /// The address of the channel's feed.
    pub fn rss_url(&self) -> (url: String)
        ensures
            url@ == feed_address(RSS_HOST@, self.channel_id@),
    {
        feed_url(RSS_HOST, self.channel_id.as_str())
    }

    /// The channel in five lines: name, handle, identifier, page and feed.
    pub fn to_string(&self) -> (card: String)
        ensures
            card@ == channel_card(self@),
    {
        let mut card = String::from_str("name: ");
        card.append(self.description.as_str());
        card.append("\nhandle: ");
        card.append(self.handle.as_str());
        card.append("\nchannel_id: ");
        card.append(self.channel_id.as_str());
        card.append("\nchannel_url: ");
        card.append(self.url().as_str());
        card.append("\nRSS feed: ");
        card.append(self.rss_url().as_str());
        card
    }

    /// The address to ask whether `channel_id` names a feed, on `host` or,
    /// with none given, on the feed host.
    pub fn validation_url(channel_id: &str, host: Option<&str>) -> (url: String)
        ensures
            url@ == feed_address(
                match host {
                    Some(h) => h@,
                    None => RSS_HOST@,
                },
                channel_id@,
            ),
    {
        match host {
            Some(h) => feed_url(h, channel_id),
            None => feed_url(RSS_HOST, channel_id),
        }
    }

    /// Whether the answer to a request at `validation_url` shows that the
    /// identifier names a feed: the status is 200.
    pub fn validate_id(status: u16) -> (valid: bool)
        ensures
            valid == (status == 200),
    {
        status == 200
    }

    /// The videos that the channel published strictly after
    /// `last_run_at`, from the text `rss` that was served at `rss_url`.
    pub fn get_fresh_videos(&self, rss: String, last_run_at: Timestamp) -> (videos: Result<
        Vec<Video>,
        FetchError,
    >)
        ensures
            result_view(videos) == fresh_in_feed(rss@, last_run_at),
    {
        match Video::parse_rss(rss) {
            Ok(videos) => Ok(filter_fresh(videos, last_run_at)),
            Err(e) => Err(e),
        }
    }

    /// Whether the channel has the handle `handle`.
    pub fn has_handle(&self, handle: &str) -> (b: bool)
        ensures
            b == (self.handle@ == handle@),
    {
        same_text(self.handle.as_str(), handle)
    }

    /// Whether the channel has the identifier `channel_id`.
    pub fn has_id(&self, channel_id: &str) -> (b: bool)
        ensures
            b == (self.channel_id@ == channel_id@),
    {
        same_text(self.channel_id.as_str(), channel_id)
    }
}

} // verus!
