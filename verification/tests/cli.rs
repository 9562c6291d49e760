use yt_sub::cli::{ChannelSource, FollowArgs, RunArgs, UnfollowArgs};
use yt_sub::poll::{PollAction, Stage};
use yt_sub::user_settings::FollowError;
use yt_sub::{Channel, Notifier, Timestamp, UserSettings};

fn follow_args(channel_id: Option<&str>, desc: Option<&str>) -> FollowArgs {
    FollowArgs {
        config: None,
        handle: "@handle".to_string(),
        channel_id: channel_id.map(str::to_string),
        desc: desc.map(str::to_string),
    }
}

#[test]
fn both_or_neither_of_identifier_and_description() {
    assert_eq!(follow_args(Some("UC1"), Some("d")).source().unwrap(), ChannelSource::Given);
    assert_eq!(follow_args(None, None).source().unwrap(), ChannelSource::Lookup);
    let e = follow_args(Some("UC1"), None).source().unwrap_err();
    assert!(matches!(e, FollowError::BadArguments));
    assert_eq!(e.message(), "You must provide only --handle or both --channel-id and --desc");
    assert!(follow_args(None, Some("d")).source().is_err());
}

#[test]
fn following_says_what_is_followed() {
    let mut settings = UserSettings::default("c".to_string());
    let said = follow_args(None, None)
        .run("UC1".to_string(), "Desc".to_string(), true, &mut settings)
        .unwrap();
    assert_eq!(settings.channels.len(), 1);
    assert_eq!(settings.channels[0].handle, "@handle");
    assert_eq!(settings.channels[0].channel_id, "UC1");
    assert_eq!(settings.channels[0].description, "Desc");
    assert_eq!(
        said,
        format!("You are now following:\n\n{}!", settings.channels[0].to_string())
    );
}

#[test]
fn following_twice_is_refused() {
    let mut settings = UserSettings::default("c".to_string());
    follow_args(None, None).run("UC1".to_string(), "Desc".to_string(), true, &mut settings).unwrap();
    let e = follow_args(None, None)
        .run("UC2".to_string(), "Other".to_string(), true, &mut settings)
        .unwrap_err();
    assert!(matches!(e, FollowError::AlreadyFollowing(_)));
    assert_eq!(settings.channels.len(), 1);
}

#[test]
fn an_invalid_identifier_is_not_followed() {
    let mut settings = UserSettings::default("c".to_string());
    let e = follow_args(None, None)
        .run("UC1".to_string(), "Desc".to_string(), false, &mut settings)
        .unwrap_err();
    assert!(matches!(e, FollowError::InvalidChannelId));
    assert!(settings.channels.is_empty());
}

#[test]
fn unfollowing_says_what_is_unfollowed() {
    let mut settings = UserSettings::default("c".to_string());
    settings.channels.push(Channel {
        handle: "@handle".to_string(),
        description: "The Channel".to_string(),
        channel_id: "UC1".to_string(),
    });
    let args = UnfollowArgs { config: None, handle: "@handle".to_string() };
    let done = args.run(&mut settings).unwrap();
    assert_eq!(done.message, "You've unfollowed The Channel!");
    assert!(!done.sync_remote);
    assert!(settings.channels.is_empty());
    assert!(matches!(args.run(&mut settings), Err(FollowError::NotFollowing)));
}

#[test]
fn unfollowing_tells_the_remote_account() {
    let mut settings = UserSettings::default("c".to_string());
    settings.api_key = Some("k".to_string());
    settings.channels.push(Channel {
        handle: "@handle".to_string(),
        description: "The Channel".to_string(),
        channel_id: "UC1".to_string(),
    });
    let args = UnfollowArgs { config: None, handle: "@handle".to_string() };
    assert!(args.run(&mut settings).unwrap().sync_remote);
}

#[test]
fn the_run_command_moves_the_marker_after_every_run() {
    let settings = UserSettings::default("c".to_string());
    let args = RunArgs { config: None, cron: true, hours_offset: None };
    let now = Timestamp::new(1_714_816_800, 0);
    let (mut cycle, action) = args.run_at(settings, now);
    assert!(matches!(action, PollAction::ReadLastRun));
    assert!(cycle.cron);
    let later = Timestamp::new(1_714_816_900, 0);
    match cycle.step_at(yt_sub::poll::PollEvent::MarkerRead(None), later) {
        PollAction::Finish { last_run_at } => assert_eq!(last_run_at, Some(later)),
        other => panic!("unexpected: {other:?}"),
    }
}

#[test]
fn the_run_command_looks_back_by_hours() {
    let mut settings = UserSettings::default("c".to_string());
    settings.notifiers = vec![Notifier::Log()];
    settings.channels.push(Channel {
        handle: "@handle".to_string(),
        description: "The Channel".to_string(),
        channel_id: "UC1".to_string(),
    });
    let args = RunArgs { config: None, cron: false, hours_offset: Some(65_535) };
    let now = Timestamp::new(1_714_816_800, 0);
    let (cycle, action) = args.run_at(settings, now);
    assert!(matches!(action, PollAction::Fetch { .. }));
    assert_eq!(cycle.stage, Stage::Fetching(0));
    assert_eq!(cycle.cutoff, Timestamp::new(1_714_816_800 - 65_535 * 3600, 0));
}

#[test]
fn a_resolved_channel_comes_with_the_command_to_follow_it() {
    let args = yt_sub::cli::ChannelDataArgs { handle: "@ManOfRecaps".to_string() };
    let said = args.run("UCNCTxLZ3EKKry-oWgLlsYsw".to_string(), "Man of Recaps".to_string());
    assert_eq!(
        said,
        "name: Man of Recaps
handle: @ManOfRecaps
channel_id: UCNCTxLZ3EKKry-oWgLlsYsw
channel_url: https://www.youtube.com/@ManOfRecaps
RSS feed: https://www.youtube.com/feeds/videos.xml?channel_id=UCNCTxLZ3EKKry-oWgLlsYsw

Run: 

sub follow --handle @ManOfRecaps --channel-id UCNCTxLZ3EKKry-oWgLlsYsw --desc 'Man of Recaps'

to subscribe to this channel."
    );
}

#[test]
fn the_run_command_starts_at_present() {
    let settings = UserSettings::default("c".to_string());
    let args = RunArgs { config: None, cron: false, hours_offset: None };
    let (mut cycle, action) = args.run(settings);
    assert!(matches!(action, PollAction::ReadLastRun));
    // 2024-01-01T00:00:00Z: the present is later.
    assert!(cycle.now.after(&Timestamp::new(1_704_067_200, 0)));
    match cycle.step(yt_sub::poll::PollEvent::MarkerRead(None)) {
        PollAction::Finish { last_run_at } => assert!(!cycle.now.after(&last_run_at.unwrap())),
        other => panic!("unexpected: {other:?}"),
    }
}
