use yt_sub::video::{filter_fresh, Video};
use yt_sub::Timestamp;

fn video(title: &str, secs: i64, nanos: u32) -> Video {
    Video {
        channel: "Channel".to_string(),
        title: title.to_string(),
        link: format!("https://www.youtube.com/watch?v={title}"),
        published_at: Timestamp::new(secs, nanos),
    }
}

fn titles(videos: &[Video]) -> Vec<String> {
    videos.iter().map(|v| v.title.clone()).collect()
}

#[test]
fn keeps_only_what_is_later_than_the_cutoff() {
    let videos = vec![video("a", 100, 0), video("b", 200, 0), video("c", 300, 0)];
    let fresh = filter_fresh(videos, Timestamp::new(150, 0));
    assert_eq!(titles(&fresh), vec!["b", "c"]);
}

#[test]
fn a_video_published_at_the_cutoff_is_dropped() {
    let videos = vec![video("at", 200, 5), video("after", 200, 6), video("before", 200, 4)];
    let fresh = filter_fresh(videos, Timestamp::new(200, 5));
    assert_eq!(titles(&fresh), vec!["after"]);
}

#[test]
fn the_order_of_the_feed_is_kept() {
    let videos = vec![video("z", 900, 0), video("a", 500, 0), video("m", 700, 0), video("old", 1, 0)];
    let fresh = filter_fresh(videos, Timestamp::new(100, 0));
    assert_eq!(titles(&fresh), vec!["z", "a", "m"]);
}

#[test]
fn nothing_in_gives_nothing_out() {
    assert!(filter_fresh(vec![], Timestamp::new(0, 0)).is_empty());
}

#[test]
fn filtering_twice_changes_nothing() {
    let cutoff = Timestamp::new(200, 0);
    let videos = vec![video("a", 100, 0), video("b", 200, 0), video("c", 300, 0), video("d", 201, 0)];
    let once = filter_fresh(videos, cutoff);
    let first = titles(&once);
    let twice = filter_fresh(once, cutoff);
    assert_eq!(titles(&twice), first);
    assert_eq!(first, vec!["c", "d"]);
}

#[test]
fn the_same_input_gives_the_same_output() {
    let cutoff = Timestamp::new(250, 0);
    let make = || vec![video("a", 100, 0), video("b", 260, 0), video("c", 300, 0)];
    assert_eq!(titles(&filter_fresh(make(), cutoff)), titles(&filter_fresh(make(), cutoff)));
}

#[test]
fn equal_videos_are_all_kept() {
    let videos = vec![video("a", 300, 0), video("a", 300, 0)];
    assert_eq!(filter_fresh(videos, Timestamp::new(0, 0)).len(), 2);
}
