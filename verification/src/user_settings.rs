//! An account's settings: the channels it follows and the notifiers that
//! it is told through.

use crate::channel::{channel_card, Channel, ChannelView};
use crate::model::{
    find_first, lemma_first_where, lemma_first_where_is, option_text, result_view,
};
use crate::notifier::{Notifier, NotifierView};
use crate::text::{join, joined};
use vstd::prelude::*;
use vstd::string::StringExecFns;

verus! {

/// The most channels that the settings of a remote account may follow.
pub const MAX_CHANNELS: usize = 100;

/// The most notifiers that the settings of a remote account may hold.
pub const MAX_NOTIFIERS: usize = 5;

/// An account's settings.
#[derive(Debug)]
pub struct UserSettings {
    pub channels: Vec<Channel>,
    pub notifiers: Vec<Notifier>,
    /// The key of the remote account, once one is registered.
    pub api_key: Option<String>,
    /// The hours of the day, in UTC, in which the account is polled; with
    /// none given it is polled at any hour.
    pub schedule: Option<Vec<u32>>,
    /// Where the settings are kept.
    pub path: String,
}

/// Settings as a mathematical value.
pub struct UserSettingsView {
    pub channels: Seq<ChannelView>,
    pub notifiers: Seq<NotifierView>,
    pub api_key: Option<Seq<char>>,
    pub schedule: Option<Seq<u32>>,
    pub path: Seq<char>,
}

/// An optional list of hours as a mathematical value.
pub open spec fn option_hours(hours: Option<Vec<u32>>) -> Option<Seq<u32>> {
    match hours {
        Some(list) => Some(list@),
        None => None,
    }
}

impl View for UserSettings {
    type V = UserSettingsView;

    open spec fn view(&self) -> UserSettingsView {
        UserSettingsView {
            channels: self.channels.deep_view(),
            notifiers: self.notifiers.deep_view(),
            api_key: option_text(self.api_key),
            schedule: option_hours(self.schedule),
            path: self.path@,
        }
    }
}

impl DeepView for UserSettings {
    type V = UserSettingsView;

    open spec fn deep_view(&self) -> UserSettingsView {
        self@
    }
}

/// Whether two rows of channels hold the same channels in the same order.
fn same_channels(a: &Vec<Channel>, b: &Vec<Channel>) -> (same: bool)
    ensures
        same == (a.deep_view() == b.deep_view()),
{
    if a.len() != b.len() {
        assert(a.deep_view().len() != b.deep_view().len());
        return false;
    }
    let mut i: usize = 0;
    while i < a.len()
        invariant
            i <= a.len(),
            a.len() == b.len(),
            forall|k: int| 0 <= k < i ==> a.deep_view()[k] == b.deep_view()[k],
        decreases a.len() - i,
    {
        if a[i] != b[i] {
            assert(a.deep_view()[i as int] != b.deep_view()[i as int]);
            return false;
        }
        i = i + 1;
    }
    assert(a.deep_view() =~= b.deep_view());
    true
}

/// Whether two rows of notifiers hold the same notifiers in the same
/// order.
fn same_notifiers(a: &Vec<Notifier>, b: &Vec<Notifier>) -> (same: bool)
    ensures
        same == (a.deep_view() == b.deep_view()),
{
    if a.len() != b.len() {
        assert(a.deep_view().len() != b.deep_view().len());
        return false;
    }
    let mut i: usize = 0;
    while i < a.len()
        invariant
            i <= a.len(),
            a.len() == b.len(),
            forall|k: int| 0 <= k < i ==> a.deep_view()[k] == b.deep_view()[k],
        decreases a.len() - i,
    {
        if a[i] != b[i] {
            assert(a.deep_view()[i as int] != b.deep_view()[i as int]);
            return false;
        }
        i = i + 1;
    }
    assert(a.deep_view() =~= b.deep_view());
    true
}

/// Whether two optional texts are both absent or hold the same text.
fn same_option_text(a: &Option<String>, b: &Option<String>) -> (same: bool)
    ensures
        same == (option_text(*a) == option_text(*b)),
{
    match (a, b) {
        (None, None) => true,
        (Some(x), Some(y)) => *x == *y,
        _ => false,
    }
}

/// Whether two optional rows of hours are both absent or hold the same
/// hours in the same order.
fn same_hours(a: &Option<Vec<u32>>, b: &Option<Vec<u32>>) -> (same: bool)
    ensures
        same == (option_hours(*a) == option_hours(*b)),
{
    match (a, b) {
        (None, None) => true,
        (Some(x), Some(y)) => {
            if x.len() != y.len() {
                assert(x@.len() != y@.len());
                return false;
            }
            let mut i: usize = 0;
            while i < x.len()
                invariant
                    i <= x.len(),
                    x.len() == y.len(),
                    option_hours(*a) == Some(x@),
                    option_hours(*b) == Some(y@),
                    forall|k: int| 0 <= k < i ==> x@[k] == y@[k],
                decreases x.len() - i,
            {
                if x[i] != y[i] {
                    assert(x@[i as int] != y@[i as int]);
                    return false;
                }
                i = i + 1;
            }
            assert(x@ =~= y@);
            true
        },
        _ => false,
    }
}

impl PartialEq for UserSettings {
    fn eq(&self, other: &Self) -> (same: bool) {
        same_channels(&self.channels, &other.channels) && same_notifiers(
            &self.notifiers,
            &other.notifiers,
        ) && same_option_text(&self.api_key, &other.api_key) && same_hours(
            &self.schedule,
            &other.schedule,
        ) && self.path == other.path
    }
}

impl vstd::std_specs::cmp::PartialEqSpecImpl for UserSettings {
    open spec fn obeys_eq_spec() -> bool {
        true
    }

    open spec fn eq_spec(&self, other: &Self) -> bool {
        self@ == other@
    }
}

/// Why settings are not accepted for a remote account.
#[derive(Debug, Clone, Copy, PartialEq, Eq, Structural)]
pub enum ConfigError {
    /// More than `MAX_CHANNELS` channels.
    TooManyChannels,
    /// More than `MAX_NOTIFIERS` notifiers.
    TooManyNotifiers,
}

impl View for ConfigError {
    type V = ConfigError;

    open spec fn view(&self) -> ConfigError {
        *self
    }
}

impl DeepView for ConfigError {
    type V = ConfigError;

    open spec fn deep_view(&self) -> ConfigError {
        *self
    }
}

impl ConfigError {
    /// The sentence that reports the refusal.
    pub fn message(&self) -> (text: String)
        ensures
            text@ == match *self {
                ConfigError::TooManyChannels => "Too many channels!"@,
                ConfigError::TooManyNotifiers => "Too many notifiers!"@,
            },
    {
        match self {
            ConfigError::TooManyChannels => String::from_str("Too many channels!"),
            ConfigError::TooManyNotifiers => String::from_str("Too many notifiers!"),
        }
    }
}

/// Why settings were not made anew, or not read.
#[derive(Debug)]
pub enum SettingsError {
    /// Settings are kept at this place already.
    AlreadyInitialized(String),
    /// No settings are kept at this place.
    Missing(String),
}

/// A refusal as a mathematical value.
pub enum SettingsErrorView {
    AlreadyInitialized(Seq<char>),
    Missing(Seq<char>),
}

impl View for SettingsError {
    type V = SettingsErrorView;

    open spec fn view(&self) -> SettingsErrorView {
        match self {
            SettingsError::AlreadyInitialized(path) => SettingsErrorView::AlreadyInitialized(path@),
            SettingsError::Missing(path) => SettingsErrorView::Missing(path@),
        }
    }
}

impl DeepView for SettingsError {
    type V = SettingsErrorView;

    open spec fn deep_view(&self) -> SettingsErrorView {
        self@
    }
}

/// The sentence that reports a refusal.
pub open spec fn settings_error_text(e: SettingsErrorView) -> Seq<char> {
    match e {
        SettingsErrorView::AlreadyInitialized(path) => "Config file at '"@ + path
            + "' is already initialized!"@,
        SettingsErrorView::Missing(path) => "Config file at '"@ + path
            + "' does not exist! Run 'ytsub init' to initialize it."@,
    }
}

impl SettingsError {
    /// The sentence that reports the refusal.
    pub fn message(&self) -> (text: String)
        ensures
            text@ == settings_error_text(self@),
    {
        match self {
            SettingsError::AlreadyInitialized(path) => {
                let mut text = String::from_str("Config file at '");
                text.append(path.as_str());
                text.append("' is already initialized!");
                text
            },
            SettingsError::Missing(path) => {
                let mut text = String::from_str("Config file at '");
                text.append(path.as_str());
                text.append("' does not exist! Run 'ytsub init' to initialize it.");
                text
            },
        }
    }
}

/// Why a channel was not followed or unfollowed.
#[derive(Debug)]
pub enum FollowError {
    /// An identifier was given without a description, or a description
    /// without an identifier.
    BadArguments,
    /// The identifier or the handle is followed already, as this channel.
    AlreadyFollowing(Channel),
    /// The feed host knows no feed under the identifier.
    InvalidChannelId,
    /// No followed channel has the handle.
    NotFollowing,
}

/// A refusal to follow or unfollow as a mathematical value.
pub enum FollowErrorView {
    BadArguments,
    AlreadyFollowing(ChannelView),
    InvalidChannelId,
    NotFollowing,
}

impl View for FollowError {
    type V = FollowErrorView;

    open spec fn view(&self) -> FollowErrorView {
        match self {
            FollowError::BadArguments => FollowErrorView::BadArguments,
            FollowError::AlreadyFollowing(channel) => FollowErrorView::AlreadyFollowing(channel@),
            FollowError::InvalidChannelId => FollowErrorView::InvalidChannelId,
            FollowError::NotFollowing => FollowErrorView::NotFollowing,
        }
    }
}

impl DeepView for FollowError {
    type V = FollowErrorView;

    open spec fn deep_view(&self) -> FollowErrorView {
        self@
    }
}

/// The sentence that reports a refusal to follow or unfollow.
pub open spec fn follow_error_text(e: FollowErrorView) -> Seq<char> {
    match e {
        FollowErrorView::BadArguments =>
            "You must provide only --handle or both --channel-id and --desc"@,
        FollowErrorView::AlreadyFollowing(channel) =>
            "You are already following this channel! \n\n"@ + channel_card(channel),
        FollowErrorView::InvalidChannelId => "Provided channel-id is invalid!"@,
        FollowErrorView::NotFollowing =>
            "You are not following a channel with the provided handle!"@,
    }
}

impl FollowError {
    /// The sentence that reports the refusal.
    pub fn message(&self) -> (text: String)
        ensures
            text@ == follow_error_text(self@),
    {
        match self {
            FollowError::BadArguments => String::from_str(
                "You must provide only --handle or both --channel-id and --desc",
            ),
            FollowError::AlreadyFollowing(channel) => {
                let mut text = String::from_str("You are already following this channel! \n\n");
                text.append(channel.to_string().as_str());
                text
            },
            FollowError::InvalidChannelId => String::from_str("Provided channel-id is invalid!"),
            FollowError::NotFollowing => String::from_str(
                "You are not following a channel with the provided handle!",
            ),
        }
    }
}

/// The followed channel that stands in the way of following a channel
/// with this identifier and handle: the first with the identifier, or
/// else the first with the handle.
pub open spec fn followed_as(
    channels: Seq<ChannelView>,
    channel_id: Seq<char>,
    handle: Seq<char>,
) -> Option<ChannelView> {
    match find_first(channels, with_id(channel_id)) {
        Some(channel) => Some(channel),
        None => find_first(channels, with_handle(handle)),
    }
}

/// What following `channel` makes of `channels`, where the feed host
/// knows the channel's identifier or not.
pub open spec fn with_followed(
    channels: Seq<ChannelView>,
    channel: ChannelView,
    id_is_valid: bool,
) -> Result<Seq<ChannelView>, FollowErrorView> {
    match followed_as(channels, channel.channel_id, channel.handle) {
        Some(following) => Err(FollowErrorView::AlreadyFollowing(following)),
        None => if id_is_valid {
            Ok(channels.push(channel))
        } else {
            Err(FollowErrorView::InvalidChannelId)
        },
    }
}

/// The test for having the identifier `channel_id`.
pub open spec fn with_id(channel_id: Seq<char>) -> spec_fn(ChannelView) -> bool {
    |c: ChannelView| c.channel_id == channel_id
}

/// The test for having the handle `handle`.
pub open spec fn with_handle(handle: Seq<char>) -> spec_fn(ChannelView) -> bool {
    |c: ChannelView| c.handle == handle
}

/// The test for having another handle than `handle`.
pub open spec fn without_handle(handle: Seq<char>) -> spec_fn(ChannelView) -> bool {
    |c: ChannelView| c.handle != handle
}

/// The test for being a Slack notifier.
pub open spec fn is_slack_notifier() -> spec_fn(NotifierView) -> bool {
    |n: NotifierView| n is Slack
}

/// Whether settings are within the limits of a remote account. The
/// channels are counted first.
pub open spec fn within_limits(settings: UserSettingsView) -> Result<(), ConfigError> {
    if settings.channels.len() > MAX_CHANNELS {
        Err(ConfigError::TooManyChannels)
    } else if settings.notifiers.len() > MAX_NOTIFIERS {
        Err(ConfigError::TooManyNotifiers)
    } else {
        Ok(())
    }
}

/// What lists the followed channels: a sentence where there is none, and
/// else a heading with each channel's card, a blank line between them.
pub open spec fn channel_listing(channels: Seq<ChannelView>) -> Seq<char> {
    if channels.len() == 0 {
        "Currently you are not following any channels."@
    } else {
        "You are following:\n\n"@ + joined(
            channels.map_values(|c: ChannelView| channel_card(c)),
            "\n\n"@,
        )
    }
}

impl UserSettings {
    /// The settings of a new account kept at `path`: no channel, the log
    /// as the only notifier, no remote account and no schedule.
    pub fn default(path: String) -> (settings: Self)
        ensures
            settings@ == (UserSettingsView {
                channels: Seq::empty(),
                notifiers: seq![NotifierView::Log],
                api_key: None,
                schedule: None,
                path: path@,
            }),
    {
        let mut notifiers: Vec<Notifier> = Vec::new();
        notifiers.push(Notifier::default());
        let settings = UserSettings {
            path,
            notifiers,
            channels: Vec::new(),
            api_key: None,
            schedule: None,
        };
        proof {
            assert(settings.channels.deep_view() =~= Seq::empty());
            assert(settings.notifiers.deep_view() =~= seq![NotifierView::Log]);
        }
        settings
    }

    /// New settings to be kept at `path`, where nothing is kept there
    /// yet; `exists` tells whether something is.
    pub fn init(path: String, exists: bool) -> (made: Result<Self, SettingsError>)
        ensures
            exists ==> result_view(made) == Err::<UserSettingsView, _>(
                SettingsErrorView::AlreadyInitialized(path@),
            ),
            !exists ==> result_view(made) == Ok::<_, SettingsErrorView>(
                UserSettingsView {
                    channels: Seq::empty(),
                    notifiers: seq![NotifierView::Log],
                    api_key: None,
                    schedule: None,
                    path: path@,
                },
            ),
    {
        if exists {
            Err(SettingsError::AlreadyInitialized(path))
        } else {
            Ok(UserSettings::default(path))
        }
    }

    /// The first followed channel with the identifier `channel_id`.
    pub fn get_channel_by_id(&self, channel_id: &str) -> (found: Option<Channel>)
        ensures
            found.deep_view() == find_first(self@.channels, with_id(channel_id@)),
    {
        let ghost all = self.channels.deep_view();
        let mut i: usize = 0;
        while i < self.channels.len()
            invariant
                i <= self.channels.len(),
                all == self.channels.deep_view(),
                forall|k: int| 0 <= k < i ==> !with_id(channel_id@)(#[trigger] all[k]),
            decreases self.channels.len() - i,
        {
            if self.channels[i].has_id(channel_id) {
                proof {
                    lemma_first_where_is(all, with_id(channel_id@), i as int);
                }
                return Some(self.channels[i].clone());
            }
            i = i + 1;
        }
        proof {
            lemma_first_where_is(all, with_id(channel_id@), all.len() as int);
        }
        None
    }

    /// The first followed channel with the handle `handle`.
    pub fn get_channel_by_handle(&self, handle: &str) -> (found: Option<Channel>)
        ensures
            found.deep_view() == find_first(self@.channels, with_handle(handle@)),
    {
        let ghost all = self.channels.deep_view();
        let mut i: usize = 0;
        while i < self.channels.len()
            invariant
                i <= self.channels.len(),
                all == self.channels.deep_view(),
                forall|k: int| 0 <= k < i ==> !with_handle(handle@)(#[trigger] all[k]),
            decreases self.channels.len() - i,
        {
            if self.channels[i].has_handle(handle) {
                proof {
                    lemma_first_where_is(all, with_handle(handle@), i as int);
                }
                return Some(self.channels[i].clone());
            }
            i = i + 1;
        }
        proof {
            lemma_first_where_is(all, with_handle(handle@), all.len() as int);
        }
        None
    }

    /// The first Slack notifier of the settings.
    pub fn get_slack_notifier(&self) -> (found: Option<&Notifier>)
        ensures
            found.deep_view() == find_first(self@.notifiers, is_slack_notifier()),
            found matches Some(n) ==> n is Slack,
    {
        let ghost all = self.notifiers.deep_view();
        let mut i: usize = 0;
        while i < self.notifiers.len()
            invariant
                i <= self.notifiers.len(),
                all == self.notifiers.deep_view(),
                forall|k: int| 0 <= k < i ==> !is_slack_notifier()(#[trigger] all[k]),
            decreases self.notifiers.len() - i,
        {
            if self.notifiers[i].is_slack() {
                proof {
                    lemma_first_where_is(all, is_slack_notifier(), i as int);
                }
                return Some(&self.notifiers[i]);
            }
            i = i + 1;
        }
        proof {
            lemma_first_where_is(all, is_slack_notifier(), all.len() as int);
        }
        None
    }

    /// The key of the remote account.
    pub fn api_key(&self) -> (key: String)
        requires
            self.api_key is Some,
        ensures
            Some(key@) == self@.api_key,
    {
        match &self.api_key {
            Some(key) => key.clone(),
            None => String::new(),
        }
    }

    /// Whether the settings are within the limits of a remote account.
    pub fn validate(&self) -> (checked: Result<(), ConfigError>)
        ensures
            checked == within_limits(self@),
    {
        if self.channels.len() > MAX_CHANNELS {
            Err(ConfigError::TooManyChannels)
        } else if self.notifiers.len() > MAX_NOTIFIERS {
            Err(ConfigError::TooManyNotifiers)
        } else {
            Ok(())
        }
    }

    /// What lists the followed channels.
    pub fn listing(&self) -> (text: String)
        ensures
            text@ == channel_listing(self@.channels),
    {
        if self.channels.len() == 0 {
            return String::from_str("Currently you are not following any channels.");
        }
        let mut cards: Vec<String> = Vec::new();
        let mut i: usize = 0;
        while i < self.channels.len()
            invariant
                i <= self.channels.len(),
                cards.len() == i,
                forall|k: int|
                    0 <= k < i ==> (#[trigger] cards@[k])@ == channel_card(self.channels@[k]@),
            decreases self.channels.len() - i,
        {
            cards.push(self.channels[i].to_string());
            i = i + 1;
        }
        proof {
            assert(cards.deep_view() =~= self@.channels.map_values(
                |c: ChannelView| channel_card(c),
            ));
        }
        let mut text = String::from_str("You are following:\n\n");
        text.append(join(&cards, "\n\n").as_str());
        text
    }
}

impl UserSettings {
    /// The followed channel that stands in the way of following a channel
    /// with this identifier and handle.
    pub fn already_following(&self, channel_id: &str, handle: &str) -> (found: Option<Channel>)
        ensures
            found.deep_view() == followed_as(self@.channels, channel_id@, handle@),
    {
        match self.get_channel_by_id(channel_id) {
            Some(channel) => Some(channel),
            None => self.get_channel_by_handle(handle),
        }
    }

    /// Follows `channel`. It is refused where its identifier or handle is
    /// followed already, and then where the feed host does not know its
    /// identifier; a refusal leaves the settings as they were.
    pub fn follow(&mut self, channel: Channel, id_is_valid: bool) -> (done: Result<(), FollowError>)
        ensures
            match with_followed(old(self)@.channels, channel@, id_is_valid) {
                Ok(channels) => done is Ok && final(self)@ == (UserSettingsView {
                    channels,
                    ..old(self)@
                }),
                Err(e) => result_view(done) == Err::<(), FollowErrorView>(e) && *final(self)
                    == *old(self),
            },
    {
        match self.already_following(channel.channel_id.as_str(), channel.handle.as_str()) {
            Some(following) => Err(FollowError::AlreadyFollowing(following)),
            None => {
                if !id_is_valid {
                    return Err(FollowError::InvalidChannelId);
                }
                let ghost before = self.channels.deep_view();
                self.channels.push(channel);
                proof {
                    assert(self.channels.deep_view() =~= before.push(channel@));
                }
                Ok(())
            },
        }
    }

    /// Stops following every channel with the handle `handle`, and gives
    /// back the first of them. Where no channel has the handle, the
    /// settings stay as they were.
    pub fn unfollow(&mut self, handle: &str) -> (gone: Result<Channel, FollowError>)
        ensures
            match find_first(old(self)@.channels, with_handle(handle@)) {
                Some(channel) => result_view(gone) == Ok::<ChannelView, FollowErrorView>(channel)
                    && final(self)@ == (UserSettingsView {
                    channels: old(self)@.channels.filter(without_handle(handle@)),
                    ..old(self)@
                }),
                None => result_view(gone) == Err::<ChannelView, FollowErrorView>(
                    FollowErrorView::NotFollowing,
                ) && *final(self) == *old(self),
            },
    {
        let first = match self.get_channel_by_handle(handle) {
            Some(channel) => channel,
            None => { return Err(FollowError::NotFollowing); },
        };
        let ghost all = self.channels.deep_view();
        let ghost keep = without_handle(handle@);
        let mut kept: Vec<Channel> = Vec::new();
        let mut i: usize = 0;
        while i < self.channels.len()
            invariant
                i <= self.channels.len(),
                all == self.channels.deep_view(),
                keep == without_handle(handle@),
                kept.deep_view() == all.take(i as int).filter(keep),
            decreases self.channels.len() - i,
        {
            proof {
                assert(all.take(i as int + 1) == all.take(i as int).push(all[i as int]));
                Seq::lemma_filter_push(all.take(i as int), all[i as int], keep);
            }
            let ghost before = kept.deep_view();
            if !self.channels[i].has_handle(handle) {
                kept.push(self.channels[i].clone());
                proof {
                    assert(kept.deep_view() =~= before.push(all[i as int]));
                }
            }
            i = i + 1;
        }
        proof {
            assert(all.take(all.len() as int) == all);
        }
        self.channels = kept;
        Ok(first)
    }
}

/// A channel that was followed is found: by its handle and by its
/// identifier, the settings give back the channel itself.
pub proof fn lemma_followed_channel_is_found(
    channels: Seq<ChannelView>,
    channel: ChannelView,
    id_is_valid: bool,
)
    requires
        with_followed(channels, channel, id_is_valid) is Ok,
    ensures
        ({
            let followed = with_followed(channels, channel, id_is_valid)->Ok_0;
            &&& find_first(followed, with_handle(channel.handle)) == Some(channel)
            &&& find_first(followed, with_id(channel.channel_id)) == Some(channel)
        }),
{
    let followed = channels.push(channel);
    let by_id = with_id(channel.channel_id);
    let by_handle = with_handle(channel.handle);
    lemma_first_where(channels, by_id);
    lemma_first_where(channels, by_handle);
    assert forall|i: int| 0 <= i < channels.len() implies !by_id(#[trigger] followed[i]) by {
        assert(followed[i] == channels[i]);
    }
    assert forall|i: int| 0 <= i < channels.len() implies !by_handle(#[trigger] followed[i]) by {
        assert(followed[i] == channels[i]);
    }
    lemma_first_where_is(followed, by_id, channels.len() as int);
    lemma_first_where_is(followed, by_handle, channels.len() as int);
}

/// A handle that was unfollowed is gone: no channel that is left has
/// it, and every channel with another handle is left.
pub proof fn lemma_unfollowed_handle_is_gone(channels: Seq<ChannelView>, handle: Seq<char>)
    ensures
        find_first(channels.filter(without_handle(handle)), with_handle(handle)) is None,
        forall|c: ChannelView|
            channels.contains(c) && c.handle != handle ==> channels.filter(
                without_handle(handle),
            ).contains(c),
{
    let kept = channels.filter(without_handle(handle));
    assert forall|i: int| 0 <= i < kept.len() implies !with_handle(handle)(#[trigger] kept[i]) by {
        channels.lemma_filter_pred(without_handle(handle), i);
    }
    lemma_first_where(kept, with_handle(handle));
    assert forall|c: ChannelView| channels.contains(c) && c.handle != handle implies kept.contains(
        c,
    ) by {
        let i = choose|i: int| 0 <= i < channels.len() && channels[i] == c;
        channels.lemma_filter_contains(without_handle(handle), i);
    }
}

} // verus!
