//! Feed entries: what a video is, which videos are fresh, and how a video
//! is announced.

use crate::notifier::{Notifier, NotifierView};
use crate::text::{chars_of, find_from, lemma_position_from_is, position, position_from};
use crate::timestamp::Timestamp;
use vstd::prelude::*;
use vstd::string::{StrSliceExecFns, StringExecFns};

verus! {

/// One entry of a channel's feed.
#[derive(Debug)]
pub struct Video {
    pub channel: String,
    pub title: String,
    pub link: String,
    pub published_at: Timestamp,
}

/// A video as a mathematical value.
pub struct VideoView {
    pub channel: Seq<char>,
    pub title: Seq<char>,
    pub link: Seq<char>,
    pub published_at: Timestamp,
}

impl View for Video {
    type V = VideoView;

    open spec fn view(&self) -> VideoView {
        VideoView {
            channel: self.channel@,
            title: self.title@,
            link: self.link@,
            published_at: self.published_at,
        }
    }
}

impl DeepView for Video {
    type V = VideoView;

    open spec fn deep_view(&self) -> VideoView {
        self@
    }
}

/// The test for having been published strictly after `cutoff`.
pub open spec fn published_after(cutoff: Timestamp) -> spec_fn(VideoView) -> bool {
    |v: VideoView| v.published_at.is_after(cutoff)
}

/// The videos of `videos` published strictly after `cutoff`, in the
/// order in which they stand.
pub open spec fn fresh_videos(videos: Seq<VideoView>, cutoff: Timestamp) -> Seq<VideoView> {
    videos.filter(published_after(cutoff))
}

/// The line that announces `video` through a notifier of the kind of
/// `notifier`: plain for the log, and for Slack a bold heading and the
/// title as a link. A Telegram notifier announces nothing.
pub open spec fn notification(video: VideoView, notifier: NotifierView) -> Seq<char> {
    match notifier {
        NotifierView::Log => "New video - "@ + video.channel + " "@ + video.title + " "@
            + video.link,
        NotifierView::Slack(_) => "*New video - "@ + video.channel + "* <"@ + video.link + "|"@
            + video.title + ">"@,
        NotifierView::Telegram => Seq::empty(),
    }
}

/// The lines that announce `videos` through `notifier`, one for each
/// video, in order.
pub open spec fn notifications(videos: Seq<VideoView>, notifier: NotifierView) -> Seq<Seq<char>> {
    videos.map_values(|v: VideoView| notification(v, notifier))
}

/// The address that a Slack line links to: what stands between the
/// first `<` and the first `|` after it.
pub open spec fn slack_link(line: Seq<char>) -> Option<Seq<char>> {
    let open = position(line, '<');
    let bar = position_from(line, '|', open + 1);
    if open < line.len() && bar < line.len() {
        Some(line.subrange(open + 1, bar))
    } else {
        None
    }
}

/// Keeps the videos published strictly after `cutoff`; a video published
/// exactly at `cutoff` is dropped.
pub fn filter_fresh(videos: Vec<Video>, cutoff: Timestamp) -> (fresh: Vec<Video>)
    ensures
        fresh.deep_view() == fresh_videos(videos.deep_view(), cutoff),
{
    let mut fresh: Vec<Video> = Vec::new();
    let ghost all = videos.deep_view();
    let ghost pred = published_after(cutoff);
    for video in it: videos
        invariant
            it.seq().len() == all.len(),
            forall|i: int| 0 <= i < all.len() ==> (#[trigger] it.seq()[i]).deep_view() == all[i],
            fresh.deep_view() == all.take(it.index() as int).filter(pred),
            pred == published_after(cutoff),
    {
        proof {
            let k = it.index() as int;
            assert(all.take(k + 1) == all.take(k).push(all[k]));
            Seq::lemma_filter_push(all.take(k), all[k], pred);
        }
        let ghost before = fresh.deep_view();
        if video.published_at.after(&cutoff) {
            fresh.push(video);
            assert(fresh.deep_view() == before.push(video.deep_view()));
        }
    }
    proof {
        assert(all.take(all.len() as int) == all);
    }
    fresh
}

/// What is kept is exactly what was published strictly after the
/// cutoff: each kept video is one of `videos` and is later than `cutoff`,
/// each video of `videos` later than `cutoff` is kept, and none published
/// at `cutoff` or before it is.
pub proof fn lemma_fresh_is_exact(videos: Seq<VideoView>, cutoff: Timestamp)
    ensures
        forall|v: VideoView|
            fresh_videos(videos, cutoff).contains(v) <==> videos.contains(v)
                && v.published_at.is_after(cutoff),
        forall|v: VideoView|
            v.published_at == cutoff ==> !fresh_videos(videos, cutoff).contains(v),
        fresh_videos(videos, cutoff).len() <= videos.len(),
{
    let pred = published_after(cutoff);
    let fresh = fresh_videos(videos, cutoff);
    videos.lemma_filter_len(pred);
    assert forall|v: VideoView| fresh.contains(v) <==> videos.contains(v)
        && v.published_at.is_after(cutoff) by {
        if fresh.contains(v) {
            let i = choose|i: int| 0 <= i < fresh.len() && fresh[i] == v;
            videos.lemma_filter_pred(pred, i);
            videos.lemma_filter_contains_rev(pred, v);
        }
        if videos.contains(v) && v.published_at.is_after(cutoff) {
            let i = choose|i: int| 0 <= i < videos.len() && videos[i] == v;
            videos.lemma_filter_contains(pred, i);
        }
    }
}

/// Filtering again with the same cutoff changes nothing.
pub proof fn lemma_fresh_is_idempotent(videos: Seq<VideoView>, cutoff: Timestamp)
    ensures
        fresh_videos(fresh_videos(videos, cutoff), cutoff) == fresh_videos(videos, cutoff),
    decreases videos.len(),
{
    let pred = published_after(cutoff);
    reveal(Seq::filter);
    if videos.len() > 0 {
        let rest = videos.drop_last();
        lemma_fresh_is_idempotent(rest, cutoff);
        if pred(videos.last()) {
            let kept = rest.filter(pred);
            assert(kept.push(videos.last()).drop_last() == kept);
        }
    }
}

/// Filtering the videos of several feeds one feed at a time gives what
/// filtering them all at once gives.
pub proof fn lemma_fresh_distributes(a: Seq<VideoView>, b: Seq<VideoView>, cutoff: Timestamp)
    ensures
        fresh_videos(a + b, cutoff) == fresh_videos(a, cutoff) + fresh_videos(b, cutoff),
{
    Seq::filter_distributes_over_add(a, b, published_after(cutoff));
}

impl Video {
    /// The line that announces this video through `notifier`. Nothing
    /// is sent, and nothing is read but the video and the notifier's kind.
    pub fn notification_text(&self, notifier: &Notifier) -> (line: String)
        requires
            !(notifier is Telegram),
        ensures
            line@ == notification(self@, notifier@),
    {
        match notifier {
            Notifier::Log() => {
                let mut line = String::from_str("New video - ");
                line.append(self.channel.as_str());
                line.append(" ");
                line.append(self.title.as_str());
                line.append(" ");
                line.append(self.link.as_str());
                line
            },
            Notifier::Slack(_) => {
                let mut line = String::from_str("*New video - ");
                line.append(self.channel.as_str());
                line.append("* <");
                line.append(self.link.as_str());
                line.append("|");
                line.append(self.title.as_str());
                line.append(">");
                line
            },
            Notifier::Telegram => String::new(),
        }
    }
}

/// The lines that announce `videos` through `notifier`.
pub fn notification_texts(videos: &Vec<Video>, notifier: &Notifier) -> (lines: Vec<String>)
    requires
        !(notifier is Telegram),
    ensures
        lines.deep_view() == notifications(videos.deep_view(), notifier@),
{
    let mut lines: Vec<String> = Vec::new();
    let mut i: usize = 0;
    while i < videos.len()
        invariant
            i <= videos.len(),
            !(notifier is Telegram),
            lines.len() == i,
            forall|k: int|
                0 <= k < i ==> (#[trigger] lines@[k])@ == notification(videos@[k]@, notifier@),
        decreases videos.len() - i,
    {
        lines.push(videos[i].notification_text(notifier));
        i = i + 1;
    }
    proof {
        assert(lines.deep_view() =~= notifications(videos.deep_view(), notifier@));
    }
    lines
}

/// The address that a Slack line links to, where the line holds a `<`
/// and a `|` after it.
pub fn extract_slack_link(line: &str) -> (link: Option<String>)
    ensures
        link.deep_view() == slack_link(line@),
{
    let chars = chars_of(line);
    let open = find_from(&chars, '<', 0);
    if open >= chars.len() {
        return None;
    }
    let bar = find_from(&chars, '|', open + 1);
    if bar >= chars.len() {
        return None;
    }
    Some(line.substring_char(open + 1, bar).to_owned())
}

/// Where the channel's name holds no `<`, a Slack line links to the
/// first part of the video's address up to its first `|`; so it links to
/// the whole address exactly where the address holds no `|`.
pub proof fn lemma_slack_link_is_cut_at_a_bar(video: VideoView, notifier: NotifierView)
    requires
        notifier is Slack,
        !video.channel.contains('<'),
    ensures
        slack_link(notification(video, notifier)) == Some(
            video.link.take(position(video.link, '|')),
        ),
        slack_link(notification(video, notifier)) == Some(video.link) <==> !video.link.contains(
            '|',
        ),
{
    reveal_strlit("*New video - ");
    reveal_strlit("* <");
    reveal_strlit("|");
    reveal_strlit(">");
    let head = "*New video - "@;
    let line = notification(video, notifier);
    let open: int = (head.len() + video.channel.len() + 2) as int;
    let cut = position(video.link, '|');
    crate::text::lemma_position_from(video.link, '|', 0);
    let bar: int = open + 1 + cut;
    assert forall|i: int| 0 <= i < open implies line[i] != '<' by {
        if i < head.len() {
            assert(line[i] == head[i]);
        } else if i < head.len() + video.channel.len() {
            assert(line[i] == video.channel[i - head.len()]);
            assert(video.channel.contains(line[i]));
        } else {
            assert(line[i] == "* <"@[i - head.len() - video.channel.len()]);
        }
    }
    assert(line[open] == '<');
    lemma_position_from_is(line, '<', 0, open);
    assert forall|i: int| open + 1 <= i < bar implies line[i] != '|' by {
        assert(line[i] == video.link[i - open - 1]);
    }
    if cut < video.link.len() {
        assert(line[bar] == video.link[cut]);
        assert(video.link.contains(video.link[cut]));
    } else {
        assert(line[bar] == '|');
        assert(!video.link.contains('|')) by {
            if video.link.contains('|') {
                let i = choose|i: int| 0 <= i < video.link.len() && video.link[i] == '|';
                assert(video.link[i] != '|');
            }
        }
    }
    lemma_position_from_is(line, '|', open + 1, bar);
    assert(line.subrange(open + 1, bar) =~= video.link.take(cut));
    if cut == video.link.len() {
        assert(video.link.take(cut) =~= video.link);
    } else {
        assert(video.link.take(cut).len() != video.link.len());
    }
}

/// A line that announces a video through Slack links to the video's
/// address, where the channel's name holds no `<` and the address holds
/// no `|`: what stands between the markers is the address, character
/// for character.
pub proof fn lemma_slack_link_round_trip(video: VideoView, notifier: NotifierView)
    requires
        notifier is Slack,
        !video.channel.contains('<'),
        !video.link.contains('|'),
    ensures
        slack_link(notification(video, notifier)) == Some(video.link),
{
    lemma_slack_link_is_cut_at_a_bar(video, notifier);
}

} // verus!
