use yt_sub::feed::{check_feed_limits, count_openings, videos_from_json, FetchError, MAX_ELEMENTS};
use yt_sub::video::{extract_slack_link, notification_texts, Video};
use yt_sub::{Channel, Notifier, SlackConfig, Timestamp};

fn slack() -> Notifier {
    Notifier::Slack(SlackConfig {
        webhook_url: "https://hooks.slack.com/services/T000/B000/XXXX".to_string(),
        channel: "videos".to_string(),
    })
}

fn video() -> Video {
    Video {
        channel: "Man of Recaps".to_string(),
        title: "A Recap".to_string(),
        link: "https://www.youtube.com/watch?v=abc123".to_string(),
        published_at: Timestamp::new(1_714_557_600, 0),
    }
}

fn entry(id: usize, published: &str) -> String {
    format!(
        r#" <entry>
  <id>yt:video:vid{id}</id>
  <yt:videoId>vid{id}</yt:videoId>
  <yt:channelId>UC_test</yt:channelId>
  <title>Video number {id}</title>
  <link rel="alternate" href="https://www.youtube.com/watch?v=vid{id}"/>
  <author>
   <name>Test Channel</name>
   <uri>https://www.youtube.com/channel/UC_test</uri>
  </author>
  <published>{published}</published>
  <updated>{published}</updated>
  <media:group>
   <media:title>Video number {id}</media:title>
   <media:content url="https://www.youtube.com/v/vid{id}?version=3" type="application/x-shockwave-flash" width="640" height="390"/>
   <media:thumbnail url="https://i3.ytimg.com/vi/vid{id}/hqdefault.jpg" width="480" height="360"/>
   <media:description>Description &amp; more of {id}</media:description>
   <media:community>
    <media:starRating count="10" average="5.00" min="1" max="5"/>
    <media:statistics views="100"/>
   </media:community>
  </media:group>
 </entry>
"#
    )
}

fn feed(entries: &[String]) -> String {
    let mut xml = String::from(
        r#"<?xml version="1.0" encoding="UTF-8"?>
<feed xmlns:yt="http://www.youtube.com/xml/schemas/2015" xmlns:media="http://search.yahoo.com/mrss/" xmlns="http://www.w3.org/2005/Atom">
 <link rel="self" href="http://www.youtube.com/feeds/videos.xml?channel_id=UC_test"/>
 <id>yt:channel:_test</id>
 <yt:channelId>_test</yt:channelId>
 <title>Test Channel</title>
 <link rel="alternate" href="https://www.youtube.com/channel/UC_test"/>
 <author>
  <name>Test Channel</name>
  <uri>https://www.youtube.com/channel/UC_test</uri>
 </author>
 <published>2015-03-06T21:57:36+00:00</published>
"#,
    );
    for e in entries {
        xml.push_str(e);
    }
    xml.push_str("</feed>\n");
    xml
}

#[test]
fn the_log_line_is_plain() {
    assert_eq!(
        video().notification_text(&Notifier::Log()),
        "New video - Man of Recaps A Recap https://www.youtube.com/watch?v=abc123"
    );
}

#[test]
fn the_slack_line_has_a_bold_heading_and_a_link() {
    assert_eq!(
        video().notification_text(&slack()),
        "*New video - Man of Recaps* <https://www.youtube.com/watch?v=abc123|A Recap>"
    );
}

#[test]
fn the_line_does_not_depend_on_the_slack_configuration() {
    let other = Notifier::Slack(SlackConfig { webhook_url: String::new(), channel: String::new() });
    assert_eq!(video().notification_text(&slack()), video().notification_text(&other));
}

#[test]
fn each_video_gets_its_line() {
    let mut second = video();
    second.title = "Another".to_string();
    let lines = notification_texts(&vec![video(), second], &Notifier::Log());
    assert_eq!(
        lines,
        vec![
            "New video - Man of Recaps A Recap https://www.youtube.com/watch?v=abc123",
            "New video - Man of Recaps Another https://www.youtube.com/watch?v=abc123",
        ]
    );
    assert!(notification_texts(&vec![], &slack()).is_empty());
}

#[test]
fn the_link_comes_back_out_of_the_slack_line() {
    let line = video().notification_text(&slack());
    assert_eq!(extract_slack_link(&line), Some(video().link));
}

#[test]
fn the_link_comes_back_whatever_the_title_holds() {
    let mut v = video();
    v.title = "a < b | c > d".to_string();
    v.link = "https://example.com/?q=<x>&r=1".to_string();
    let line = v.notification_text(&slack());
    assert_eq!(extract_slack_link(&line), Some(v.link.clone()));
}

#[test]
fn a_bar_in_the_link_cuts_it_short() {
    let mut v = video();
    v.link = "https://example.com/a|b".to_string();
    let line = v.notification_text(&slack());
    assert_eq!(extract_slack_link(&line), Some("https://example.com/a".to_string()));
}

#[test]
fn a_line_without_markers_links_to_nothing() {
    assert_eq!(extract_slack_link("no markers here"), None);
    assert_eq!(extract_slack_link("only <open"), None);
    assert_eq!(extract_slack_link("bar | before <open"), None);
    assert_eq!(extract_slack_link(""), None);
    assert_eq!(extract_slack_link("<|"), Some(String::new()));
    assert_eq!(extract_slack_link(&video().notification_text(&Notifier::Log())), None);
}

#[test]
fn parse_videos_test() {
    let entries: Vec<String> =
        (0..15).map(|i| entry(i, &format!("2024-05-{:02}T10:00:00+00:00", i + 1))).collect();
    let videos = Video::parse_rss(feed(&entries)).unwrap();
    assert_eq!(videos.len(), 15);
}

#[test]
fn a_feed_gives_the_videos_of_its_entries() {
    let entries = vec![entry(1, "2024-05-01T10:00:00+00:00"), entry(2, "2024-05-04T09:50:00+00:00")];
    let videos = Video::parse_rss(feed(&entries)).unwrap();
    assert_eq!(videos.len(), 2);
    assert_eq!(videos[0].channel, "Test Channel");
    assert_eq!(videos[0].title, "Video number 1");
    assert_eq!(videos[0].link, "https://www.youtube.com/watch?v=vid1");
    assert_eq!(videos[0].published_at, Timestamp::new(1_714_557_600, 0));
    assert_eq!(videos[1].title, "Video number 2");
    assert_eq!(videos[1].link, "https://www.youtube.com/watch?v=vid2");
    assert_eq!(videos[1].published_at, Timestamp::new(1_714_816_200, 0));
}

#[test]
fn a_feed_with_one_entry_lists_one_video() {
    let entries = vec![entry(1, "2024-05-01T10:00:00+00:00")];
    let videos = Video::parse_rss(feed(&entries)).unwrap();
    assert_eq!(videos.len(), 1);
    assert_eq!(videos[0].channel, "Test Channel");
    assert_eq!(videos[0].title, "Video number 1");
    assert_eq!(videos[0].link, "https://www.youtube.com/watch?v=vid1");
    assert_eq!(videos[0].published_at, Timestamp::new(1_714_557_600, 0));
}

#[test]
fn a_feed_without_entries_lists_no_videos() {
    let videos = Video::parse_rss(feed(&[])).unwrap();
    assert!(videos.is_empty());
}

#[test]
fn one_entry_that_cannot_be_read_fails_the_feed() {
    let entries = vec![entry(1, "no date")];
    assert!(matches!(Video::parse_rss(feed(&entries)), Err(FetchError::BadEntry(0))));
    let empty = "<feed><author><name>Ch</name></author><entry></entry></feed>".to_string();
    assert!(matches!(Video::parse_rss(empty), Err(FetchError::BadEntry(0))));
    let text = "<feed><author><name>Ch</name></author><entry>words</entry></feed>".to_string();
    assert!(matches!(Video::parse_rss(text), Err(FetchError::BadEntry(0))));
}

#[test]
fn one_fresh_video_of_a_feed_with_one_entry() {
    let channel = Channel {
        handle: "@t".to_string(),
        description: "Test Channel".to_string(),
        channel_id: "UC_test".to_string(),
    };
    let entries = vec![entry(7, "2024-05-04T09:50:00+00:00")];
    let fresh = channel
        .get_fresh_videos(feed(&entries), Timestamp::new(1_714_730_400, 0))
        .unwrap();
    assert_eq!(fresh.len(), 1);
    assert_eq!(fresh[0].title, "Video number 7");
    let none = channel
        .get_fresh_videos(feed(&entries), Timestamp::new(1_714_816_200, 0))
        .unwrap();
    assert!(none.is_empty());
}

#[test]
fn a_text_that_is_no_feed_names_no_author() {
    assert!(matches!(
        Video::parse_rss("<html><body>Not found</body></html>".to_string()),
        Err(FetchError::MissingAuthor)
    ));
    assert!(matches!(Video::parse_rss(String::new()), Err(FetchError::MissingAuthor)));
    assert!(matches!(Video::parse_rss("plain text".to_string()), Err(FetchError::MissingAuthor)));
}

#[test]
fn one_entry_with_a_bad_date_fails_the_feed() {
    let entries = vec![
        entry(1, "2024-05-01T10:00:00+00:00"),
        entry(2, "the day before yesterday"),
        entry(3, "2024-05-03T10:00:00+00:00"),
    ];
    assert!(matches!(Video::parse_rss(feed(&entries)), Err(FetchError::BadEntry(1))));
}

#[test]
fn the_first_bad_entry_is_named() {
    let entries = vec![entry(1, "no date"), entry(2, "no date either")];
    assert!(matches!(Video::parse_rss(feed(&entries)), Err(FetchError::BadEntry(0))));
}

#[test]
fn an_entry_without_a_title_fails_the_feed() {
    let good = entry(1, "2024-05-01T10:00:00+00:00");
    let bad = entry(2, "2024-05-02T10:00:00+00:00").replace("<title>Video number 2</title>", "");
    assert!(matches!(Video::parse_rss(feed(&[good, bad])), Err(FetchError::BadEntry(1))));
}

#[test]
fn an_entry_without_a_link_fails_the_feed() {
    let good = entry(1, "2024-05-01T10:00:00+00:00");
    let bad = entry(2, "2024-05-02T10:00:00+00:00")
        .replace(r#"<link rel="alternate" href="https://www.youtube.com/watch?v=vid2"/>"#, "");
    assert!(matches!(Video::parse_rss(feed(&[bad, good])), Err(FetchError::BadEntry(0))));
}

#[test]
fn a_feed_that_names_the_character_data_key_is_not_read() {
    let text = "<feed><#cdata a=\"1\"></#cdata><![CDATA[x]]></feed>".to_string();
    assert!(matches!(Video::parse_rss(text), Err(FetchError::Unsupported)));
    assert!(matches!(check_feed_limits("abc <#cdata"), Err(FetchError::Unsupported)));
    assert!(check_feed_limits("abc <# cdata <#cdat a").is_ok());
}

#[test]
fn a_feed_that_opens_too_many_elements_is_not_read() {
    let at_limit = "<a/>".repeat(MAX_ELEMENTS);
    assert!(check_feed_limits(&at_limit).is_ok());
    let over = "<a/>".repeat(MAX_ELEMENTS + 1);
    assert!(matches!(check_feed_limits(&over), Err(FetchError::Oversized)));
    assert!(matches!(Video::parse_rss(over), Err(FetchError::Oversized)));
    assert_eq!(MAX_ELEMENTS, 512);
}

#[test]
fn closing_tags_comments_and_instructions_open_nothing() {
    let count = |text: &str| count_openings(&text.chars().collect());
    assert_eq!(count(""), 0);
    assert_eq!(count("<a>"), 1);
    assert_eq!(count("<a></a>"), 1);
    assert_eq!(count("<a/><b/>"), 2);
    assert_eq!(count("<?xml version=\"1.0\"?><a><!-- note --><![CDATA[x]]></a>"), 1);
    assert_eq!(count("a < b"), 1);
    assert_eq!(count("<"), 1);
    assert_eq!(count("</"), 0);
    assert_eq!(count("<<a>"), 2);
}

#[test]
fn a_feed_of_closing_tags_is_within_the_limits() {
    let text = "</a>".repeat(10 * MAX_ELEMENTS);
    assert!(check_feed_limits(&text).is_ok());
}

#[test]
fn the_deepest_feed_that_is_read_is_read() {
    let mut text = "<a>".repeat(MAX_ELEMENTS);
    for _ in 0..MAX_ELEMENTS {
        text.push_str("</a>");
    }
    assert!(check_feed_limits(&text).is_ok());
    assert!(matches!(Video::parse_rss(text), Err(FetchError::MissingAuthor)));
    let open_only = "<a>".repeat(MAX_ELEMENTS);
    assert!(matches!(Video::parse_rss(open_only), Err(FetchError::MissingAuthor)));
}

#[test]
fn a_full_feed_is_within_the_limits() {
    let entries: Vec<String> =
        (0..20).map(|i| entry(i, "2024-05-01T10:00:00+00:00")).collect();
    assert!(check_feed_limits(&feed(&entries)).is_ok());
}

#[test]
fn character_data_in_a_feed_is_read() {
    let good = entry(1, "2024-05-01T10:00:00+00:00");
    let with_cdata = entry(2, "2024-05-02T10:00:00+00:00").replace(
        "<media:description>Description &amp; more of 2</media:description>",
        "<media:description><![CDATA[<b>bold</b>]]></media:description>",
    );
    let videos = Video::parse_rss(feed(&[good, with_cdata])).unwrap();
    assert_eq!(videos.len(), 2);
}

#[test]
fn videos_come_from_the_document() {
    let doc: serde_json::Value = serde_json::from_str(
        r#"{"feed": {"author": {"name": "Ch"}, "entry": [
            {"title": "T1", "published": "2024-05-01T10:00:00+00:00", "link": {"@href": "https://l/1"}},
            {"title": "T2", "published": "2024-05-03 10:00:00Z", "link": {"@href": "https://l/2", "@rel": "alternate"}}
        ]}}"#,
    )
    .unwrap();
    let videos = videos_from_json(&doc).unwrap();
    assert_eq!(videos.len(), 2);
    assert_eq!(videos[0].channel, "Ch");
    assert_eq!(videos[0].title, "T1");
    assert_eq!(videos[0].link, "https://l/1");
    assert_eq!(videos[0].published_at, Timestamp::new(1_714_557_600, 0));
    assert_eq!(videos[1].channel, "Ch");
    assert_eq!(videos[1].published_at, Timestamp::new(1_714_730_400, 0));
}

#[test]
fn a_document_with_no_entries_gives_no_videos() {
    let doc: serde_json::Value =
        serde_json::from_str(r#"{"feed": {"author": {"name": "Ch"}, "entry": []}}"#).unwrap();
    assert!(videos_from_json(&doc).unwrap().is_empty());
}

#[test]
fn a_document_is_checked_author_first() {
    let doc: serde_json::Value = serde_json::from_str(r#"{"feed": {"entry": 5}}"#).unwrap();
    assert!(matches!(videos_from_json(&doc), Err(FetchError::MissingAuthor)));
    let doc: serde_json::Value =
        serde_json::from_str(r#"{"feed": {"author": {"name": 7}, "entry": []}}"#).unwrap();
    assert!(matches!(videos_from_json(&doc), Err(FetchError::MissingAuthor)));
    let doc: serde_json::Value =
        serde_json::from_str(r#"{"feed": {"author": {"name": "Ch"}, "entry": {"title": "T"}}}"#)
            .unwrap();
    assert!(matches!(videos_from_json(&doc), Err(FetchError::BadEntry(0))));
    let doc: serde_json::Value = serde_json::from_str(
        r#"{"feed": {"author": {"name": "Ch"}, "entry": [{"title": "T", "published": "2024-05-01T10:00:00Z", "link": "https://l"}]}}"#,
    )
    .unwrap();
    assert!(matches!(videos_from_json(&doc), Err(FetchError::BadEntry(0))));
}

#[test]
fn fresh_videos_of_a_feed() {
    let channel = Channel {
        handle: "@t".to_string(),
        description: "Test Channel".to_string(),
        channel_id: "UC_test".to_string(),
    };
    let entries = vec![entry(1, "2024-05-01T10:00:00+00:00"), entry(2, "2024-05-04T09:50:00+00:00")];
    let cutoff = Timestamp::new(1_714_730_400, 0); // 2024-05-03T10:00:00Z
    let fresh = channel.get_fresh_videos(feed(&entries), cutoff).unwrap();
    assert_eq!(fresh.len(), 1);
    assert_eq!(fresh[0].title, "Video number 2");
    let none = channel.get_fresh_videos(feed(&entries), Timestamp::new(1_714_816_200, 0)).unwrap();
    assert!(none.is_empty());
    assert!(channel.get_fresh_videos("nothing".to_string(), cutoff).is_err());
}

#[test]
fn each_fetch_failure_has_its_sentence() {
    assert_eq!(FetchError::Transport("timed out".to_string()).message(), "timed out");
    assert_eq!(FetchError::Oversized.message(), "The feed opens too many elements");
    assert_eq!(FetchError::Unsupported.message(), "The feed names an element that cannot be read");
    assert_eq!(FetchError::Unreadable.message(), "The feed could not be converted");
    assert_eq!(FetchError::MissingAuthor.message(), "The feed names no author");
    assert_eq!(FetchError::BadEntry(4).message(), "An entry of the feed cannot be read");
}

#[test]
fn one_entry_in_the_document_is_a_list_of_one() {
    let doc: serde_json::Value = serde_json::from_str(
        r#"{"feed": {"author": {"name": "Ch"}, "entry":
            {"title": "T1", "published": "2024-05-01T10:00:00+00:00", "link": {"@href": "https://l/1"}}}}"#,
    )
    .unwrap();
    let videos = videos_from_json(&doc).unwrap();
    assert_eq!(videos.len(), 1);
    assert_eq!(videos[0].title, "T1");
    assert_eq!(videos[0].link, "https://l/1");
}

#[test]
fn no_entry_in_the_document_is_an_empty_list() {
    let doc: serde_json::Value =
        serde_json::from_str(r#"{"feed": {"author": {"name": "Ch"}, "title": "x"}}"#).unwrap();
    assert!(videos_from_json(&doc).unwrap().is_empty());
    let doc: serde_json::Value =
        serde_json::from_str(r#"{"feed": {"author": {"name": "Ch"}, "entry": null}}"#).unwrap();
    assert!(matches!(videos_from_json(&doc), Err(FetchError::BadEntry(0))));
}
