//! What the commands of the command line decide, apart from what they
//! read and write.

use crate::channel::{channel_card, Channel, ChannelView};
use crate::model::{find_first, result_view};
use crate::poll::{poll_start, AdvancePolicy, PollAction, PollCycle, MAX_LOOKBACK_SECONDS};
use crate::timestamp::Timestamp;
use crate::user_settings::{
    with_followed, with_handle, without_handle, FollowError, FollowErrorView, UserSettings,
    UserSettingsView,
};
use vstd::prelude::*;
use vstd::string::StringExecFns;

verus! {

/// The arguments of the command that follows a channel.
#[derive(Debug)]
pub struct FollowArgs {
    /// Where the settings are kept, if not at the usual place.
    pub config: Option<String>,
    pub handle: String,
    pub channel_id: Option<String>,
    pub desc: Option<String>,
}

/// Where the identifier and the name of a channel to follow come from.
#[derive(Clone, Copy, Debug, PartialEq, Eq, Structural)]
pub enum ChannelSource {
    /// Both were given on the command line.
    Given,
    /// Neither was given: the handle has to be resolved.
    Lookup,
}

/// Where the identifier and the name come from, by whether each was
/// given: both or neither, and nothing in between.
pub open spec fn channel_source(has_id: bool, has_desc: bool) -> Result<
    ChannelSource,
    FollowErrorView,
> {
    if has_id && has_desc {
        Ok(ChannelSource::Given)
    } else if !has_id && !has_desc {
        Ok(ChannelSource::Lookup)
    } else {
        Err(FollowErrorView::BadArguments)
    }
}

/// What is said once `channel` is followed.
pub open spec fn followed_text(channel: ChannelView) -> Seq<char> {
    "You are now following:\n\n"@ + channel_card(channel) + "!"@
}

/// What is said once the channel called `description` is unfollowed.
pub open spec fn unfollowed_text(description: Seq<char>) -> Seq<char> {
    "You've unfollowed "@ + description + "!"@
}

impl FollowArgs {
    /// Where the identifier and the name of the channel come from.
    pub fn source(&self) -> (source: Result<ChannelSource, FollowError>)
        ensures
            match channel_source(self.channel_id is Some, self.desc is Some) {
                Ok(s) => source == Ok::<_, FollowError>(s),
                Err(e) => source is Err && source->Err_0@ == e,
            },
    {
        match (&self.channel_id, &self.desc) {
            (Some(_), Some(_)) => Ok(ChannelSource::Given),
            (None, None) => Ok(ChannelSource::Lookup),
            _ => Err(FollowError::BadArguments),
        }
    }

    /// Follows the channel with the handle of the arguments and the
    /// identifier and name that were given or looked up, and says so.
    /// `id_is_valid` tells whether the feed host knows the identifier.
    pub fn run(
        self,
        channel_id: String,
        desc: String,
        id_is_valid: bool,
        settings: &mut UserSettings,
    ) -> (said: Result<String, FollowError>)
        ensures
            ({
                let channel = ChannelView {
                    handle: self.handle@,
                    description: desc@,
                    channel_id: channel_id@,
                };
                match with_followed(old(settings)@.channels, channel, id_is_valid) {
                    Ok(channels) => result_view(said) == Ok::<_, FollowErrorView>(
                        followed_text(channel),
                    ) && final(settings)@ == (UserSettingsView { channels, ..old(settings)@ }),
                    Err(e) => result_view(said) == Err::<Seq<char>, _>(e) && *final(settings)
                        == *old(settings),
                }
            }),
    {
        let channel = Channel { handle: self.handle, description: desc, channel_id };
        let card = channel.to_string();
        match settings.follow(channel, id_is_valid) {
            Err(e) => Err(e),
            Ok(_) => {
                let mut said = String::from_str("You are now following:\n\n");
                said.append(card.as_str());
                said.append("!");
                Ok(said)
            },
        }
    }
}

/// The arguments of the command that unfollows a channel.
#[derive(Debug)]
pub struct UnfollowArgs {
    /// Where the settings are kept, if not at the usual place.
    pub config: Option<String>,
    pub handle: String,
}

/// What came of unfollowing a channel.
#[derive(Debug)]
pub struct Unfollowed {
    /// What is to be said.
    pub message: String,
    /// Whether the remote account has to be told: the settings carry
    /// its key.
    pub sync_remote: bool,
}

impl UnfollowArgs {
    /// Stops following the channels with the handle of the arguments,
    /// and says so.
    pub fn run(&self, settings: &mut UserSettings) -> (done: Result<Unfollowed, FollowError>)
        ensures
            match find_first(old(settings)@.channels, with_handle(self.handle@)) {
                Some(channel) => done matches Ok(outcome) && outcome.message@ == unfollowed_text(
                    channel.description,
                ) && outcome.sync_remote == (old(settings).api_key is Some) && final(settings)@
                    == (UserSettingsView {
                    channels: old(settings)@.channels.filter(without_handle(self.handle@)),
                    ..old(settings)@
                }),
                None => done matches Err(e) && e is NotFollowing && *final(settings) == *old(
                    settings,
                ),
            },
    {
        match settings.unfollow(self.handle.as_str()) {
            Err(e) => Err(e),
            Ok(channel) => {
                let mut message = String::from_str("You've unfollowed ");
                message.append(channel.description.as_str());
                message.append("!");
                Ok(Unfollowed { message, sync_remote: settings.api_key.is_some() })
            },
        }
    }
}

/// The arguments of the command that resolves a handle.
#[derive(Debug)]
pub struct ChannelDataArgs {
    pub handle: String,
}

/// What is said of a resolved channel: its card, and the command that
/// follows it.
pub open spec fn resolved_text(channel: ChannelView) -> Seq<char> {
    channel_card(channel) + "\n\nRun: \n\nsub follow --handle "@ + channel.handle
        + " --channel-id "@ + channel.channel_id + " --desc '"@ + channel.description
        + "'\n\nto subscribe to this channel."@
}

impl ChannelDataArgs {
    /// What is said once the handle of the arguments is resolved to
    /// `channel_id` and `channel_name`.
    pub fn run(&self, channel_id: String, channel_name: String) -> (said: String)
        ensures
            said@ == resolved_text(
                ChannelView {
                    handle: self.handle@,
                    description: channel_name@,
                    channel_id: channel_id@,
                },
            ),
    {
        let channel = Channel {
            handle: self.handle.clone(),
            description: channel_name,
            channel_id,
        };
        let mut said = channel.to_string();
        said.append("\n\nRun: \n\nsub follow --handle ");
        said.append(channel.handle.as_str());
        said.append(" --channel-id ");
        said.append(channel.channel_id.as_str());
        said.append(" --desc '");
        said.append(channel.description.as_str());
        said.append("'\n\nto subscribe to this channel.");
        said
    }
}

/// The arguments of the command that checks for fresh videos.
#[derive(Debug)]
pub struct RunArgs {
    /// Where the settings are kept, if not at the usual place.
    pub config: Option<String>,
    /// Whether lines go to the log rather than to standard output.
    pub cron: bool,
    /// How many hours to look back, in place of the marker of the last
    /// run.
    pub hours_offset: Option<u16>,
}

impl RunArgs {
    /// Starts the poll cycle of the command at the present time: the
    /// marker moves after every run, and the arguments choose the sink
    /// and the time to look back.
    pub fn run(&self, settings: UserSettings) -> (started: (PollCycle, PollAction))
        ensures
            (started.0@, started.1@) == poll_start(
                settings@,
                started.0.now,
                AdvancePolicy::AfterEveryRun,
                self.cron,
                self.hours_offset,
            ),
            started.0@.wf(),
            started.0.now.secs - MAX_LOOKBACK_SECONDS >= i64::MIN,
    {
        PollCycle::start_now(settings, AdvancePolicy::AfterEveryRun, self.cron, self.hours_offset)
    }

    /// Starts the poll cycle of the command at `now`.
    pub fn run_at(&self, settings: UserSettings, now: Timestamp) -> (started: (
        PollCycle,
        PollAction,
    ))
        requires
            now.secs - MAX_LOOKBACK_SECONDS >= i64::MIN,
        ensures
            (started.0@, started.1@) == poll_start(
                settings@,
                now,
                AdvancePolicy::AfterEveryRun,
                self.cron,
                self.hours_offset,
            ),
            started.0@.wf(),
            started.0.now == now,
    {
        PollCycle::start(settings, now, AdvancePolicy::AfterEveryRun, self.cron, self.hours_offset)
    }
}

} // verus!
