//! One poll cycle of an account, as a machine that never waits: it says
//! what to do next, is told what came of it, and says what to do then.
//!
//! The caller carries out each `PollAction` and hands the outcome back
//! as a `PollEvent`. A feed that cannot be had and a notifier that cannot
//! deliver are recorded and passed over; neither ends the cycle.

use crate::channel::{feed_address, fresh_in_feed, Channel, ChannelView, RSS_HOST};
use crate::feed::{FetchError, FetchErrorView};
use crate::model::result_view;
use crate::notifier::{
    delivery_for, slack_outcome, slack_result, Delivery, DeliveryView, Notifier, NotifierView,
    NotifyError, NotifyErrorView,
};
use crate::schedule::{due, matching_schedule_at};
use crate::timestamp::{clock_now, Timestamp, DEFAULT_LOOKBACK_SECONDS, SECONDS_PER_HOUR};
use crate::user_settings::{UserSettings, UserSettingsView};
use crate::video::{notification_texts, notifications, Video, VideoView};
use vstd::prelude::*;
use vstd::string::StringExecFns;

verus! {

/// The longest time, in seconds, that a cycle looks back: 65,535 hours.
pub const MAX_LOOKBACK_SECONDS: i64 = 235_926_000;

/// When the marker of the last run moves to the time at which a cycle
/// ends.
#[derive(Clone, Copy, Debug, PartialEq, Eq, Structural)]
pub enum AdvancePolicy {
    /// After every run in which the feeds were asked for, whether or not
    /// a fresh video was found.
    AfterEveryRun,
    /// Only after a run that had fresh videos to deliver.
    AfterDelivery,
}

/// Where a cycle stands.
#[derive(Clone, Copy, Debug, PartialEq, Eq, Structural)]
pub enum Stage {
    /// The marker of the last run has been asked for.
    AwaitingMarker,
    /// The feed of the channel at this position has been asked for.
    Fetching(usize),
    /// The delivery through the notifier at this position is under way.
    Notifying(usize),
    /// Nothing is left to do.
    Finished,
}

/// What the caller is asked to do.
#[derive(Debug)]
pub enum PollAction {
    /// Read the account's marker of the last run.
    ReadLastRun,
    /// Get the feed at `url`.
    Fetch { url: String },
    /// Carry out the delivery.
    Deliver(Delivery),
    /// The cycle is over. Where `last_run_at` holds an instant, store it
    /// as the account's marker of the last run: it is the time at which
    /// the cycle ended, after every delivery was tried.
    Finish { last_run_at: Option<Timestamp> },
    /// The cycle is over and failed as a whole: the marker of the last
    /// run could not be read.
    Abort { reason: String },
}

/// An action as a mathematical value.
pub enum PollActionView {
    ReadLastRun,
    Fetch { url: Seq<char> },
    Deliver(DeliveryView),
    Finish { last_run_at: Option<Timestamp> },
    Abort { reason: Seq<char> },
}

impl View for PollAction {
    type V = PollActionView;

    open spec fn view(&self) -> PollActionView {
        match self {
            PollAction::ReadLastRun => PollActionView::ReadLastRun,
            PollAction::Fetch { url } => PollActionView::Fetch { url: url@ },
            PollAction::Deliver(delivery) => PollActionView::Deliver(delivery@),
            PollAction::Finish { last_run_at } => PollActionView::Finish {
                last_run_at: *last_run_at,
            },
            PollAction::Abort { reason } => PollActionView::Abort { reason: reason@ },
        }
    }
}

/// What came of the action that the caller was asked to do.
#[derive(Debug)]
pub enum PollEvent {
    /// The marker was read; it holds this instant, or the account has
    /// none yet.
    MarkerRead(Option<Timestamp>),
    /// The marker could not be read.
    MarkerUnreadable(String),
    /// The feed host answered with this text.
    FeedServed(String),
    /// The feed could not be asked for, or its answer could not be read.
    FeedFailed(String),
    /// The lines were written.
    LinesWritten,
    /// The webhook answered with this status and body.
    WebhookAnswered { status: u16, body: String },
    /// The delivery could not be made.
    DeliveryFailed(String),
}

/// An event as a mathematical value.
pub enum PollEventView {
    MarkerRead(Option<Timestamp>),
    MarkerUnreadable(Seq<char>),
    FeedServed(Seq<char>),
    FeedFailed(Seq<char>),
    LinesWritten,
    WebhookAnswered { status: u16, body: Seq<char> },
    DeliveryFailed(Seq<char>),
}

impl View for PollEvent {
    type V = PollEventView;

    open spec fn view(&self) -> PollEventView {
        match self {
            PollEvent::MarkerRead(marker) => PollEventView::MarkerRead(*marker),
            PollEvent::MarkerUnreadable(reason) => PollEventView::MarkerUnreadable(reason@),
            PollEvent::FeedServed(text) => PollEventView::FeedServed(text@),
            PollEvent::FeedFailed(reason) => PollEventView::FeedFailed(reason@),
            PollEvent::LinesWritten => PollEventView::LinesWritten,
            PollEvent::WebhookAnswered { status, body } => PollEventView::WebhookAnswered {
                status: *status,
                body: body@,
            },
            PollEvent::DeliveryFailed(reason) => PollEventView::DeliveryFailed(reason@),
        }
    }
}

/// What came of a delivery, as a mathematical value.
pub open spec fn outcome_view(outcome: Option<Result<(), NotifyError>>) -> Option<
    Result<(), NotifyErrorView>,
> {
    match outcome {
        Some(settled) => Some(result_view(settled)),
        None => None,
    }
}

impl PollEvent {
    /// What the event says of a delivery, if it speaks of one: written
    /// lines are a success, a webhook's answer is one with status 200,
    /// and a delivery that could not be made is none.
    pub fn delivery_outcome(self) -> (outcome: Option<Result<(), NotifyError>>)
        ensures
            outcome_view(outcome) == delivery_outcome(self@),
    {
        match self {
            PollEvent::LinesWritten => Some(Ok(())),
            PollEvent::WebhookAnswered { status, body } => Some(slack_result(status, body)),
            PollEvent::DeliveryFailed(reason) => Some(Err(NotifyError::Transport(reason))),
            _ => None,
        }
    }
}

/// A failure that a cycle passed over.
#[derive(Debug)]
pub enum PollFailure {
    /// The feed of the channel at this position gave no videos.
    Fetch(usize, FetchError),
    /// The notifier at this position did not deliver.
    Notify(usize, NotifyError),
}

/// A recorded failure as a mathematical value.
pub enum PollFailureView {
    Fetch(int, FetchErrorView),
    Notify(int, NotifyErrorView),
}

impl View for PollFailure {
    type V = PollFailureView;

    open spec fn view(&self) -> PollFailureView {
        match self {
            PollFailure::Fetch(channel, error) => PollFailureView::Fetch(*channel as int, error@),
            PollFailure::Notify(notifier, error) => PollFailureView::Notify(
                *notifier as int,
                error@,
            ),
        }
    }
}

impl DeepView for PollFailure {
    type V = PollFailureView;

    open spec fn deep_view(&self) -> PollFailureView {
        self@
    }
}

/// The line that reports a failure that was passed over.
pub open spec fn poll_failure_text(failure: PollFailureView) -> Seq<char> {
    match failure {
        PollFailureView::Fetch(_, error) => "Error: "@ + crate::feed::fetch_error_text(error),
        PollFailureView::Notify(_, error) => "Error: "@ + crate::notifier::notify_error_text(
            error,
        ),
    }
}

impl PollFailure {
    /// The line that reports the failure.
    pub fn message(&self) -> (text: String)
        ensures
            text@ == poll_failure_text(self@),
    {
        let mut text = String::from_str("Error: ");
        match self {
            PollFailure::Fetch(_, error) => text.append(error.message().as_str()),
            PollFailure::Notify(_, error) => text.append(error.message().as_str()),
        }
        text
    }
}

/// A poll cycle of one account.
#[derive(Debug)]
pub struct PollCycle {
    pub channels: Vec<Channel>,
    pub notifiers: Vec<Notifier>,
    /// Videos published after this instant are fresh.
    pub cutoff: Timestamp,
    /// The time of this run.
    pub now: Timestamp,
    pub policy: AdvancePolicy,
    /// Whether lines go to the log rather than to standard output.
    pub cron: bool,
    pub stage: Stage,
    /// The fresh videos gathered so far, in the order of the channels.
    pub fresh: Vec<Video>,
    /// The failures passed over so far, in the order in which they came.
    pub failures: Vec<PollFailure>,
}

/// A poll cycle as a mathematical value.
pub struct PollView {
    pub channels: Seq<ChannelView>,
    pub notifiers: Seq<NotifierView>,
    pub cutoff: Timestamp,
    pub now: Timestamp,
    pub policy: AdvancePolicy,
    pub cron: bool,
    pub stage: Stage,
    pub fresh: Seq<VideoView>,
    pub failures: Seq<PollFailureView>,
}

impl View for PollCycle {
    type V = PollView;

    open spec fn view(&self) -> PollView {
        PollView {
            channels: self.channels.deep_view(),
            notifiers: self.notifiers.deep_view(),
            cutoff: self.cutoff,
            now: self.now,
            policy: self.policy,
            cron: self.cron,
            stage: self.stage,
            fresh: self.fresh.deep_view(),
            failures: self.failures.deep_view(),
        }
    }
}

/// The instant after which videos are fresh: the marker of the last run,
/// or seven days before `now` where the account has none.
pub open spec fn cutoff_after(marker: Option<Timestamp>, now: Timestamp) -> Timestamp {
    match marker {
        Some(at) => at,
        None => Timestamp { secs: (now.secs - DEFAULT_LOOKBACK_SECONDS) as i64, nanos: now.nanos },
    }
}

/// What the notifier at position `at` has to do with the fresh videos.
pub open spec fn delivery_at(s: PollView, at: int) -> Result<DeliveryView, NotifyErrorView> {
    delivery_for(s.notifiers[at], notifications(s.fresh, s.notifiers[at]), s.cron)
}

impl PollView {
    /// The stage names a channel or a notifier that exists, and a
    /// notifier is waited for only with fresh videos that it can deliver.
    pub open spec fn wf(self) -> bool {
        match self.stage {
            Stage::AwaitingMarker => true,
            Stage::Fetching(i) => i < self.channels.len(),
            Stage::Notifying(j) => j < self.notifiers.len() && self.fresh.len() > 0 && delivery_at(
                self,
                j as int,
            ) is Ok,
            Stage::Finished => true,
        }
    }

    /// The cycle ends at the instant `when`, and the marker moves there
    /// where `advance` says so.
    pub open spec fn finish(self, advance: bool, when: Timestamp) -> (PollView, PollActionView) {
        (
            PollView { stage: Stage::Finished, ..self },
            PollActionView::Finish {
                last_run_at: if advance {
                    Some(when)
                } else {
                    None
                },
            },
        )
    }

    /// The cycle turns to the notifiers from position `from` on: the
    /// first that has something to deliver is waited for, those before it
    /// that cannot deliver are recorded, and after the last notifier the
    /// cycle ends and the marker moves.
    pub open spec fn enter_notify(self, from: int, when: Timestamp) -> (PollView, PollActionView)
        decreases self.notifiers.len() - from,
    {
        if from < 0 || from >= self.notifiers.len() {
            self.finish(true, when)
        } else {
            match delivery_at(self, from) {
                Ok(delivery) => (
                    PollView { stage: Stage::Notifying(from as usize), ..self },
                    PollActionView::Deliver(delivery),
                ),
                Err(error) => (PollView {
                    failures: self.failures.push(PollFailureView::Notify(from, error)),
                    ..self
                }).enter_notify(from + 1, when),
            }
        }
    }

    /// All feeds have been asked for. Without a fresh video nothing is
    /// delivered, and the marker moves only under `AfterEveryRun`; else
    /// the cycle turns to the notifiers.
    pub open spec fn enter_dispatch(self, when: Timestamp) -> (PollView, PollActionView) {
        if self.fresh.len() == 0 {
            self.finish(self.policy == AdvancePolicy::AfterEveryRun, when)
        } else {
            self.enter_notify(0, when)
        }
    }

    /// The cycle turns to the channel at position `at`, or, past the last
    /// channel, to the delivery.
    pub open spec fn enter_fetch(self, at: int, when: Timestamp) -> (PollView, PollActionView) {
        if 0 <= at < self.channels.len() {
            (
                PollView { stage: Stage::Fetching(at as usize), ..self },
                PollActionView::Fetch {
                    url: feed_address(RSS_HOST@, self.channels[at].channel_id),
                },
            )
        } else {
            self.enter_dispatch(when)
        }
    }

    /// The action that the cycle waits for an answer to.
    pub open spec fn pending(self) -> PollActionView {
        match self.stage {
            Stage::AwaitingMarker => PollActionView::ReadLastRun,
            Stage::Fetching(i) => PollActionView::Fetch {
                url: feed_address(RSS_HOST@, self.channels[i as int].channel_id),
            },
            Stage::Notifying(j) => PollActionView::Deliver(delivery_at(self, j as int)->Ok_0),
            Stage::Finished => PollActionView::Finish { last_run_at: None },
        }
    }

    /// The cycle after `event`, which is taken in at the instant `when`,
    /// and what is to be done next. An event that does not answer the
    /// pending action changes nothing, and the action is asked for again.
    /// Where the cycle ends and the marker moves, it moves to `when`: the
    /// time after the last delivery, not the time at which the cycle
    /// started.
    pub open spec fn step(self, event: PollEventView, when: Timestamp) -> (
        PollView,
        PollActionView,
    ) {
        match self.stage {
            Stage::AwaitingMarker => match event {
                PollEventView::MarkerRead(marker) => (PollView {
                    cutoff: cutoff_after(marker, self.now),
                    ..self
                }).enter_fetch(0, when),
                PollEventView::MarkerUnreadable(reason) => (
                    PollView { stage: Stage::Finished, ..self },
                    PollActionView::Abort { reason },
                ),
                _ => (self, self.pending()),
            },
            Stage::Fetching(i) => match feed_outcome(event, self.cutoff) {
                Some(Ok(videos)) => (PollView { fresh: self.fresh + videos, ..self }).enter_fetch(
                    i + 1,
                    when,
                ),
                Some(Err(error)) => (PollView {
                    failures: self.failures.push(PollFailureView::Fetch(i as int, error)),
                    ..self
                }).enter_fetch(i + 1, when),
                None => (self, self.pending()),
            },
            Stage::Notifying(j) => match delivery_outcome(event) {
                Some(Ok(_)) => self.enter_notify(j + 1, when),
                Some(Err(error)) => (PollView {
                    failures: self.failures.push(PollFailureView::Notify(j as int, error)),
                    ..self
                }).enter_notify(j + 1, when),
                None => (self, self.pending()),
            },
            Stage::Finished => (self, self.pending()),
        }
    }
}

/// What an event says of the feed that was asked for, if it speaks of a
/// feed: the fresh videos of the text that was served, or why there are
/// none.
pub open spec fn feed_outcome(event: PollEventView, cutoff: Timestamp) -> Option<
    Result<Seq<VideoView>, FetchErrorView>,
> {
    match event {
        PollEventView::FeedServed(text) => Some(fresh_in_feed(text, cutoff)),
        PollEventView::FeedFailed(reason) => Some(Err(FetchErrorView::Transport(reason))),
        _ => None,
    }
}

/// What an event says of the delivery that was under way, if it speaks
/// of a delivery.
pub open spec fn delivery_outcome(event: PollEventView) -> Option<Result<(), NotifyErrorView>> {
    match event {
        PollEventView::LinesWritten => Some(Ok(())),
        PollEventView::WebhookAnswered { status, body } => Some(slack_outcome(status, body)),
        PollEventView::DeliveryFailed(reason) => Some(Err(NotifyErrorView::Transport(reason))),
        _ => None,
    }
}

/// How a cycle for `settings` starts at `now`. An account that is not
/// due is left alone. With a number of hours to look back, the cutoff
/// lies that many hours before `now` and the feeds are asked for at once;
/// without one, the marker of the last run is asked for first.
pub open spec fn poll_start(
    settings: UserSettingsView,
    now: Timestamp,
    policy: AdvancePolicy,
    cron: bool,
    hours_offset: Option<u16>,
) -> (PollView, PollActionView) {
    let fresh_cycle = PollView {
        channels: settings.channels,
        notifiers: settings.notifiers,
        cutoff: now,
        now,
        policy,
        cron,
        stage: Stage::AwaitingMarker,
        fresh: Seq::empty(),
        failures: Seq::empty(),
    };
    if !due(settings.schedule, now) {
        fresh_cycle.finish(false, now)
    } else {
        match hours_offset {
            Some(hours) => (PollView {
                cutoff: Timestamp {
                    secs: (now.secs - hours * SECONDS_PER_HOUR) as i64,
                    nanos: now.nanos,
                },
                ..fresh_cycle
            }).enter_fetch(0, now),
            None => (fresh_cycle, PollActionView::ReadLastRun),
        }
    }
}

impl PollCycle {
    /// Ends the cycle.
    fn finish(&mut self, advance: bool, when: Timestamp) -> (action: PollAction)
        ensures
            (final(self)@, action@) == old(self)@.finish(advance, when),
            final(self)@.wf(),
            final(self).now == old(self).now,
    {
        self.stage = Stage::Finished;
        PollAction::Finish {
            last_run_at: if advance {
                Some(when)
            } else {
                None
            },
        }
    }

    /// Turns to the notifiers from position `from` on.
    fn enter_notify(&mut self, from: usize, when: Timestamp) -> (action: PollAction)
        requires
            old(self).fresh.len() > 0,
        ensures
            (final(self)@, action@) == old(self)@.enter_notify(from as int, when),
            final(self)@.wf(),
            final(self).now == old(self).now,
    {
        let mut j: usize = from;
        while j < self.notifiers.len()
            invariant
                self.now == old(self).now,
                self.fresh.len() > 0,
                self@.enter_notify(j as int, when) == old(self)@.enter_notify(from as int, when),
            decreases self.notifiers.len() - j,
        {
            let ghost before = self@;
            proof {
                assert(before.notifiers[j as int] == self.notifiers@[j as int]@);
            }
            let plan = match &self.notifiers[j] {
                Notifier::Telegram => Err(NotifyError::NotImplemented),
                notifier => {
                    let lines = notification_texts(&self.fresh, notifier);
                    notifier.notify(lines, self.cron)
                },
            };
            assert(result_view(plan) == delivery_at(before, j as int));
            match plan {
                Ok(delivery) => {
                    self.stage = Stage::Notifying(j);
                    return PollAction::Deliver(delivery);
                },
                Err(error) => {
                    let ghost failures = self.failures.deep_view();
                    let ghost recorded = PollFailureView::Notify(j as int, error@);
                    self.failures.push(PollFailure::Notify(j, error));
                    assert(self.failures.deep_view() =~= failures.push(recorded));
                    j = j + 1;
                },
            }
        }
        self.finish(true, when)
    }

    /// Turns to the delivery once all feeds have been asked for.
    fn enter_dispatch(&mut self, when: Timestamp) -> (action: PollAction)
        ensures
            (final(self)@, action@) == old(self)@.enter_dispatch(when),
            final(self)@.wf(),
            final(self).now == old(self).now,
    {
        if self.fresh.len() == 0 {
            let advance = match self.policy {
                AdvancePolicy::AfterEveryRun => true,
                AdvancePolicy::AfterDelivery => false,
            };
            self.finish(advance, when)
        } else {
            self.enter_notify(0, when)
        }
    }

    /// Turns to the channel at position `at`.
    fn enter_fetch(&mut self, at: usize, when: Timestamp) -> (action: PollAction)
        ensures
            (final(self)@, action@) == old(self)@.enter_fetch(at as int, when),
            final(self)@.wf(),
            final(self).now == old(self).now,
    {
        if at < self.channels.len() {
            self.stage = Stage::Fetching(at);
            PollAction::Fetch { url: self.channels[at].rss_url() }
        } else {
            self.enter_dispatch(when)
        }
    }
}

impl PollCycle {
    /// Starts a cycle for `settings` at `now`, and says what to do first.
    pub fn start(
        settings: UserSettings,
        now: Timestamp,
        policy: AdvancePolicy,
        cron: bool,
        hours_offset: Option<u16>,
    ) -> (started: (PollCycle, PollAction))
        requires
            now.secs - MAX_LOOKBACK_SECONDS >= i64::MIN,
        ensures
            (started.0@, started.1@) == poll_start(settings@, now, policy, cron, hours_offset),
            started.0@.wf(),
            started.0.now == now,
    {
        let is_due = matching_schedule_at(&settings, &now);
        let mut cycle = PollCycle {
            channels: settings.channels,
            notifiers: settings.notifiers,
            cutoff: now,
            now,
            policy,
            cron,
            stage: Stage::AwaitingMarker,
            fresh: Vec::new(),
            failures: Vec::new(),
        };
        proof {
            assert(cycle.fresh.deep_view() =~= Seq::empty());
            assert(cycle.failures.deep_view() =~= Seq::empty());
        }
        if !is_due {
            let action = cycle.finish(false, now);
            return (cycle, action);
        }
        match hours_offset {
            Some(hours) => {
                let back: i64 = (hours as i64) * SECONDS_PER_HOUR;
                cycle.cutoff = now.seconds_before(back);
                let action = cycle.enter_fetch(0, now);
                (cycle, action)
            },
            None => (cycle, PollAction::ReadLastRun),
        }
    }

    /// Starts a cycle for `settings` at the present time, which the
    /// cycle then holds as the time of the run.
    pub fn start_now(
        settings: UserSettings,
        policy: AdvancePolicy,
        cron: bool,
        hours_offset: Option<u16>,
    ) -> (started: (PollCycle, PollAction))
        ensures
            (started.0@, started.1@) == poll_start(
                settings@,
                started.0.now,
                policy,
                cron,
                hours_offset,
            ),
            started.0@.wf(),
            started.0.now.secs - MAX_LOOKBACK_SECONDS >= i64::MIN,
    {
        PollCycle::start(settings, clock_now(), policy, cron, hours_offset)
    }

    /// Whether nothing is left to do.
    pub fn is_finished(&self) -> (b: bool)
        ensures
            b == (self.stage == Stage::Finished),
    {
        match self.stage {
            Stage::Finished => true,
            _ => false,
        }
    }

    /// The action that the cycle waits for an answer to.
    pub fn pending(&self) -> (action: PollAction)
        requires
            self@.wf(),
        ensures
            action@ == self@.pending(),
    {
        match self.stage {
            Stage::AwaitingMarker => PollAction::ReadLastRun,
            Stage::Fetching(i) => PollAction::Fetch { url: self.channels[i].rss_url() },
            Stage::Notifying(j) => {
                proof {
                    assert(self@.notifiers[j as int] == self.notifiers@[j as int]@);
                }
                match &self.notifiers[j] {
                    Notifier::Telegram => PollAction::Finish { last_run_at: None },
                    notifier => {
                        let lines = notification_texts(&self.fresh, notifier);
                        match notifier.notify(lines, self.cron) {
                            Ok(delivery) => PollAction::Deliver(delivery),
                            Err(_) => PollAction::Finish { last_run_at: None },
                        }
                    },
                }
            },
            Stage::Finished => PollAction::Finish { last_run_at: None },
        }
    }

    /// Takes in, at present, what came of the pending action, and says
    /// what to do next. A marker that is handed out is the present time.
    pub fn step(&mut self, event: PollEvent) -> (action: PollAction)
        requires
            old(self)@.wf(),
            old(self).now.secs - MAX_LOOKBACK_SECONDS >= i64::MIN,
        ensures
            exists|when: Timestamp| (final(self)@, action@) == old(self)@.step(event@, when),
            final(self)@.wf(),
            final(self).now == old(self).now,
    {
        let when = clock_now();
        self.step_at(event, when)
    }

    /// Takes in, at the instant `when`, what came of the pending action,
    /// and says what to do next.
    pub fn step_at(&mut self, event: PollEvent, when: Timestamp) -> (action: PollAction)
        requires
            old(self)@.wf(),
            old(self).now.secs - MAX_LOOKBACK_SECONDS >= i64::MIN,
        ensures
            (final(self)@, action@) == old(self)@.step(event@, when),
            final(self)@.wf(),
            final(self).now == old(self).now,
    {
        match self.stage {
            Stage::AwaitingMarker => match event {
                PollEvent::MarkerRead(marker) => {
                    self.cutoff = match marker {
                        Some(at) => at,
                        None => self.now.seconds_before(DEFAULT_LOOKBACK_SECONDS),
                    };
                    self.enter_fetch(0, when)
                },
                PollEvent::MarkerUnreadable(reason) => {
                    self.stage = Stage::Finished;
                    PollAction::Abort { reason }
                },
                _ => self.pending(),
            },
            Stage::Fetching(i) => {
                assert(i < self.channels.len());
                let outcome = match event {
                    PollEvent::FeedServed(text) => self.channels[i].get_fresh_videos(
                        text,
                        self.cutoff,
                    ),
                    PollEvent::FeedFailed(reason) => Err(FetchError::Transport(reason)),
                    _ => { return self.pending(); },
                };
                match outcome {
                    Ok(videos) => {
                        let ghost before = self.fresh.deep_view();
                        let ghost added = videos.deep_view();
                        let mut videos = videos;
                        self.fresh.append(&mut videos);
                        assert(self.fresh.deep_view() =~= before + added);
                    },
                    Err(error) => {
                        let ghost before = self.failures.deep_view();
                        let ghost recorded = PollFailureView::Fetch(i as int, error@);
                        self.failures.push(PollFailure::Fetch(i, error));
                        assert(self.failures.deep_view() =~= before.push(recorded));
                    },
                }
                self.enter_fetch(i + 1, when)
            },
            Stage::Notifying(j) => {
                assert(j < self.notifiers.len());
                let outcome = match event.delivery_outcome() {
                    Some(outcome) => outcome,
                    None => { return self.pending(); },
                };
                match outcome {
                    Ok(_) => {},
                    Err(error) => {
                        let ghost before = self.failures.deep_view();
                        let ghost recorded = PollFailureView::Notify(j as int, error@);
                        self.failures.push(PollFailure::Notify(j, error));
                        assert(self.failures.deep_view() =~= before.push(recorded));
                    },
                }
                self.enter_notify(j + 1, when)
            },
            Stage::Finished => self.pending(),
        }
    }
}

} // verus!
