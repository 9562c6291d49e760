use yt_sub::user_settings::{ConfigError, FollowError, MAX_CHANNELS, MAX_NOTIFIERS};
use yt_sub::{Channel, Notifier, SlackConfig, UserSettings};

fn channel(n: usize) -> Channel {
    Channel {
        handle: format!("@handle{n}"),
        description: format!("Channel {n}"),
        channel_id: format!("UC{n}"),
    }
}

fn slack(name: &str) -> Notifier {
    Notifier::Slack(SlackConfig {
        webhook_url: format!("https://hooks.slack.com/{name}"),
        channel: name.to_string(),
    })
}

fn settings_with(channels: usize) -> UserSettings {
    let mut settings = UserSettings::default("config.toml".to_string());
    for n in 0..channels {
        settings.channels.push(channel(n));
    }
    settings
}

#[test]
fn new_settings_follow_nothing_and_write_to_the_log() {
    let settings = UserSettings::default("test.toml".to_string());
    assert!(settings.channels.is_empty());
    assert_eq!(settings.notifiers.len(), 1);
    assert!(settings.notifiers[0] == Notifier::Log());
    assert!(settings.api_key.is_none());
    assert!(settings.schedule.is_none());
    assert_eq!(settings.path, "test.toml");
}

#[test]
fn a_channel_is_found_by_its_identifier() {
    let settings = settings_with(3);
    let found = settings.get_channel_by_id("UC1").unwrap();
    assert!(found == channel(1));
    assert!(settings.get_channel_by_id("UC3").is_none());
    assert!(settings.get_channel_by_id("").is_none());
    assert!(settings.get_channel_by_id("@handle1").is_none());
}

#[test]
fn a_channel_is_found_by_its_handle() {
    let settings = settings_with(3);
    let found = settings.get_channel_by_handle("@handle2").unwrap();
    assert!(found == channel(2));
    assert!(settings.get_channel_by_handle("@handle9").is_none());
    assert!(settings.get_channel_by_handle("UC2").is_none());
}

#[test]
fn the_first_of_two_channels_with_one_identifier_is_found() {
    let mut settings = settings_with(2);
    let mut twin = channel(7);
    twin.channel_id = "UC0".to_string();
    settings.channels.push(twin);
    assert_eq!(settings.get_channel_by_id("UC0").unwrap().description, "Channel 0");
}

#[test]
fn the_first_slack_notifier_is_found() {
    let mut settings = UserSettings::default("c".to_string());
    assert!(settings.get_slack_notifier().is_none());
    settings.notifiers.push(Notifier::Telegram);
    assert!(settings.get_slack_notifier().is_none());
    settings.notifiers.push(slack("first"));
    settings.notifiers.push(slack("second"));
    assert!(*settings.get_slack_notifier().unwrap() == slack("first"));
}

#[test]
fn the_key_of_a_registered_account() {
    let mut settings = UserSettings::default("c".to_string());
    settings.api_key = Some("key-1".to_string());
    assert_eq!(settings.api_key(), "key-1");
}

#[test]
fn settings_at_the_limits_are_accepted() {
    let mut settings = settings_with(MAX_CHANNELS);
    settings.notifiers = (0..MAX_NOTIFIERS).map(|_| Notifier::Log()).collect();
    assert_eq!(settings.validate(), Ok(()));
    assert_eq!(MAX_CHANNELS, 100);
    assert_eq!(MAX_NOTIFIERS, 5);
}

#[test]
fn too_many_channels_are_refused() {
    let settings = settings_with(MAX_CHANNELS + 1);
    assert_eq!(settings.validate(), Err(ConfigError::TooManyChannels));
    assert_eq!(ConfigError::TooManyChannels.message(), "Too many channels!");
}

#[test]
fn too_many_notifiers_are_refused() {
    let mut settings = settings_with(1);
    settings.notifiers = (0..MAX_NOTIFIERS + 1).map(|_| Notifier::Log()).collect();
    assert_eq!(settings.validate(), Err(ConfigError::TooManyNotifiers));
    assert_eq!(ConfigError::TooManyNotifiers.message(), "Too many notifiers!");
}

#[test]
fn too_many_of_both_is_reported_as_too_many_channels() {
    let mut settings = settings_with(MAX_CHANNELS + 1);
    settings.notifiers = (0..MAX_NOTIFIERS + 1).map(|_| Notifier::Log()).collect();
    assert_eq!(settings.validate(), Err(ConfigError::TooManyChannels));
}

#[test]
fn following_adds_the_channel_at_the_end() {
    let mut settings = settings_with(2);
    assert!(settings.follow(channel(5), true).is_ok());
    assert_eq!(settings.channels.len(), 3);
    assert!(settings.channels[2] == channel(5));
    assert!(settings.channels[0] == channel(0));
}

#[test]
fn following_a_followed_identifier_is_refused() {
    let mut settings = settings_with(2);
    let mut again = channel(9);
    again.channel_id = "UC1".to_string();
    match settings.follow(again, true) {
        Err(FollowError::AlreadyFollowing(following)) => assert!(following == channel(1)),
        other => panic!("unexpected: {other:?}"),
    }
    assert_eq!(settings.channels.len(), 2);
}

#[test]
fn following_a_followed_handle_is_refused() {
    let mut settings = settings_with(2);
    let mut again = channel(9);
    again.handle = "@handle0".to_string();
    let e = settings.follow(again, true).unwrap_err();
    assert_eq!(
        e.message(),
        format!("You are already following this channel! \n\n{}", channel(0).to_string())
    );
    assert_eq!(settings.channels.len(), 2);
}

#[test]
fn the_identifier_is_looked_at_before_the_handle() {
    let mut settings = settings_with(3);
    let mut again = channel(9);
    again.channel_id = "UC2".to_string();
    again.handle = "@handle0".to_string();
    assert!(settings.already_following("UC2", "@handle0").unwrap() == channel(2));
    match settings.follow(again, false) {
        Err(FollowError::AlreadyFollowing(following)) => assert!(following == channel(2)),
        other => panic!("unexpected: {other:?}"),
    }
}

#[test]
fn an_identifier_that_the_host_does_not_know_is_refused() {
    let mut settings = settings_with(1);
    let e = settings.follow(channel(4), false).unwrap_err();
    assert!(matches!(e, FollowError::InvalidChannelId));
    assert_eq!(e.message(), "Provided channel-id is invalid!");
    assert_eq!(settings.channels.len(), 1);
}

#[test]
fn unfollowing_drops_every_channel_with_the_handle() {
    let mut settings = settings_with(3);
    let mut twin = channel(8);
    twin.handle = "@handle1".to_string();
    settings.channels.push(twin);
    let gone = settings.unfollow("@handle1").unwrap();
    assert!(gone == channel(1));
    assert_eq!(settings.channels.len(), 2);
    assert!(settings.channels[0] == channel(0));
    assert!(settings.channels[1] == channel(2));
}

#[test]
fn unfollowing_what_is_not_followed_is_refused() {
    let mut settings = settings_with(2);
    let e = settings.unfollow("@nobody").unwrap_err();
    assert!(matches!(e, FollowError::NotFollowing));
    assert_eq!(e.message(), "You are not following a channel with the provided handle!");
    assert_eq!(settings.channels.len(), 2);
}

#[test]
fn the_listing_of_no_channels_is_a_sentence() {
    assert_eq!(settings_with(0).listing(), "Currently you are not following any channels.");
}

#[test]
fn the_listing_holds_each_card() {
    let settings = settings_with(2);
    assert_eq!(
        settings.listing(),
        format!(
            "You are following:\n\n{}\n\n{}",
            channel(0).to_string(),
            channel(1).to_string()
        )
    );
}

#[test]
fn settings_are_equal_by_what_they_hold() {
    let make = || {
        let mut s = settings_with(2);
        s.notifiers.push(slack("a"));
        s.api_key = Some("k".to_string());
        s.schedule = Some(vec![1, 2]);
        s
    };
    assert!(make() == make());
    assert!(UserSettings::default("p".to_string()) == UserSettings::default("p".to_string()));
    assert!(UserSettings::default("p".to_string()) != UserSettings::default("q".to_string()));

    let mut other = make();
    other.channels[1].description = "changed".to_string();
    assert!(make() != other);
    let mut other = make();
    other.channels.pop();
    assert!(make() != other);
    let mut other = make();
    other.notifiers[1] = slack("b");
    assert!(make() != other);
    let mut other = make();
    other.notifiers.swap(0, 1);
    assert!(make() != other);
    let mut other = make();
    other.api_key = None;
    assert!(make() != other);
    let mut other = make();
    other.api_key = Some("K".to_string());
    assert!(make() != other);
    let mut other = make();
    other.schedule = Some(vec![2, 1]);
    assert!(make() != other);
    let mut other = make();
    other.schedule = Some(vec![1]);
    assert!(make() != other);
    let mut other = make();
    other.schedule = None;
    assert!(make() != other);
}

#[test]
fn settings_are_made_anew_where_none_are_kept() {
    let made = UserSettings::init("here.toml".to_string(), false).unwrap();
    assert!(made == UserSettings::default("here.toml".to_string()));
}

#[test]
fn settings_are_not_made_anew_where_some_are_kept() {
    let e = UserSettings::init("here.toml".to_string(), true).unwrap_err();
    assert_eq!(e.message(), "Config file at 'here.toml' is already initialized!");
}

#[test]
fn settings_that_are_missing_say_how_to_make_them() {
    let e = yt_sub::user_settings::SettingsError::Missing("/tmp/none.toml".to_string());
    assert_eq!(
        e.message(),
        "Config file at '/tmp/none.toml' does not exist! Run 'ytsub init' to initialize it."
    );
}

#[test]
fn user_settings_test_init_config_file() {
    let path = "/home/user/.config/yt-sub-rs-test/config-1.toml".to_string();

    let settings = UserSettings::init(path.clone(), false).unwrap();
    assert!(settings == UserSettings::default(path));
}

#[test]
fn user_settings_cli_test_init_config_file() {
    let path = "/home/user/.config/yt-sub-rs-test/config-2.toml".to_string();

    let settings = UserSettings::init(path.clone(), false).unwrap();
    assert!(settings == UserSettings::default(path));
}

#[test]
#[should_panic]
fn user_settings_test_init_twice() {
    let path = "/home/user/.config/yt-sub-rs-test/config-3.toml".to_string();

    UserSettings::init(path.clone(), false).expect("1st should not panic");
    UserSettings::init(path, true).expect("2nd should panic");
}

#[test]
#[should_panic]
fn user_settings_cli_test_init_twice() {
    let path = "/home/user/.config/yt-sub-rs-test/config-4.toml".to_string();

    UserSettings::init(path.clone(), false).expect("1st should not panic");
    UserSettings::init(path, true).expect("2nd should panic");
}
