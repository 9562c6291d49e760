//! What holds of every poll cycle, whatever the outside world answers.

use crate::feed::FetchErrorView;
use crate::notifier::{DeliveryView, NotifyErrorView};
use crate::channel::{feed_address, RSS_HOST};
use crate::poll::{
    cutoff_after, delivery_at, delivery_outcome, feed_outcome, poll_start, AdvancePolicy,
    PollActionView, PollEventView, PollFailureView, PollView, Stage,
};
use crate::schedule::due;
use crate::timestamp::Timestamp;
use crate::user_settings::UserSettingsView;
use crate::video::VideoView;
use vstd::prelude::*;

verus! {

/// Whether `event` answers the action that the cycle `s` waits for.
pub open spec fn answers(s: PollView, event: PollEventView) -> bool {
    match s.stage {
        Stage::AwaitingMarker => event is MarkerRead || event is MarkerUnreadable,
        Stage::Fetching(_) => feed_outcome(event, s.cutoff) is Some,
        Stage::Notifying(_) => delivery_outcome(event) is Some,
        Stage::Finished => false,
    }
}

/// An upper bound on the number of answers that the cycle still takes.
pub open spec fn remaining(s: PollView) -> int {
    match s.stage {
        Stage::AwaitingMarker => (s.channels.len() + s.notifiers.len() + 2) as int,
        Stage::Fetching(i) => (s.channels.len() - i) + s.notifiers.len() + 1,
        Stage::Notifying(j) => s.notifiers.len() - j,
        Stage::Finished => 0,
    }
}

/// Whether `a` and `b` are cycles of the same account and run: the same
/// channels and notifiers, the same time, policy and sink.
pub open spec fn same_run(a: PollView, b: PollView) -> bool {
    &&& a.channels == b.channels
    &&& a.notifiers == b.notifiers
    &&& a.now == b.now
    &&& a.policy == b.policy
    &&& a.cron == b.cron
}

/// Whether the cycle `t` waits for a notifier to carry out `delivery`,
/// which is what that notifier has to do with all fresh videos.
pub open spec fn waits_for(t: PollView, delivery: DeliveryView) -> bool {
    match t.stage {
        Stage::Notifying(j) => delivery_at(t, j as int) == Ok::<_, NotifyErrorView>(delivery),
        _ => false,
    }
}

/// Whether `action` ends a cycle.
pub open spec fn is_final(action: PollActionView) -> bool {
    action is Finish || action is Abort
}

/// What turning to the notifiers does: nothing but the stage and the
/// record of failures changes, and the record only grows. Either a
/// notifier at or after `from` is waited for with a delivery of all fresh
/// videos, or the cycle ends and the marker moves to `when`, the time
/// at which this happens.
pub proof fn lemma_enter_notify(s: PollView, from: int, when: Timestamp)
    requires
        0 <= from,
        s.fresh.len() > 0,
        s.notifiers.len() <= usize::MAX,
    ensures
        ({
            let (t, action) = s.enter_notify(from, when);
            &&& same_run(s, t)
            &&& t.cutoff == s.cutoff
            &&& t.fresh == s.fresh
            &&& s.failures.is_prefix_of(t.failures)
            &&& t.wf()
            &&& match action {
                PollActionView::Deliver(delivery) => waits_for(t, delivery) && from
                    <= t.stage->Notifying_0,
                PollActionView::Finish { last_run_at } => t.stage == Stage::Finished
                    && last_run_at == Some(when),
                _ => false,
            }
            &&& remaining(t) <= s.notifiers.len() - from || remaining(t) == 0
        }),
    decreases s.notifiers.len() - from,
{
    if from < s.notifiers.len() {
        match delivery_at(s, from) {
            Ok(delivery) => {
                let t = PollView { stage: Stage::Notifying(from as usize), ..s };
                assert(delivery_at(t, from) == delivery_at(s, from));
            },
            Err(error) => {
                let next = PollView {
                    failures: s.failures.push(PollFailureView::Notify(from, error)),
                    ..s
                };
                lemma_enter_notify(next, from + 1, when);
                let (t, action) = next.enter_notify(from + 1, when);
                assert(s.failures.is_prefix_of(next.failures));
                assert(s.failures.is_prefix_of(t.failures)) by {
                    assert forall|i: int| 0 <= i < s.failures.len() implies s.failures[i]
                        == t.failures[i] by {
                        assert(s.failures[i] == next.failures[i]);
                    }
                }
            },
        }
    }
}

/// Whether `s` can be the value of a cycle that a program holds.
pub open spec fn sound(s: PollView) -> bool {
    s.wf() && s.channels.len() <= usize::MAX && s.notifiers.len() <= usize::MAX
}

/// What turning to a channel does: the channel's feed is asked for, or,
/// past the last channel, the cycle turns to the delivery: without a
/// fresh video it ends, and the marker moves only under `AfterEveryRun`.
pub proof fn lemma_enter_fetch(s: PollView, at: int, when: Timestamp)
    requires
        0 <= at <= s.channels.len(),
        s.channels.len() <= usize::MAX,
        s.notifiers.len() <= usize::MAX,
    ensures
        ({
            let (t, action) = s.enter_fetch(at, when);
            &&& same_run(s, t)
            &&& t.cutoff == s.cutoff
            &&& t.fresh == s.fresh
            &&& s.failures.is_prefix_of(t.failures)
            &&& sound(t)
            &&& at < s.channels.len() ==> t.stage == Stage::Fetching(at as usize) && action
                == (PollActionView::Fetch {
                url: feed_address(RSS_HOST@, s.channels[at].channel_id),
            })
            &&& at >= s.channels.len() ==> !(action is Fetch)
            &&& at >= s.channels.len() && s.fresh.len() == 0 ==> t.stage == Stage::Finished
                && action == (PollActionView::Finish {
                last_run_at: if s.policy == AdvancePolicy::AfterEveryRun {
                    Some(when)
                } else {
                    None
                },
            })
            &&& match action {
                PollActionView::Fetch { url } => at < s.channels.len(),
                PollActionView::Deliver(delivery) => s.fresh.len() > 0 && waits_for(t, delivery),
                PollActionView::Finish { last_run_at } => t.stage == Stage::Finished && (
                last_run_at is Some ==> last_run_at == Some(when) && (s.fresh.len() > 0 || s.policy
                    == AdvancePolicy::AfterEveryRun)) && (s.fresh.len() > 0 ==> last_run_at
                    is Some),
                _ => false,
            }
            &&& remaining(t) <= (s.channels.len() - at) + s.notifiers.len() + 1
            &&& remaining(t) >= 0
        }),
{
    if at >= s.channels.len() && s.fresh.len() > 0 {
        lemma_enter_notify(s, 0, when);
    }
}

/// A step keeps the account and the run: the channels, the notifiers,
/// the time of the run, the policy and the sink stay as they are. The
/// cutoff changes only when the marker is read. Videos and failures are
/// only added, after those gathered before.
pub proof fn lemma_step_keeps_the_run(s: PollView, event: PollEventView, when: Timestamp)
    requires
        sound(s),
    ensures
        ({
            let (t, action) = s.step(event, when);
            &&& same_run(s, t)
            &&& sound(t)
            &&& s.fresh.is_prefix_of(t.fresh)
            &&& s.failures.is_prefix_of(t.failures)
            &&& t.cutoff == s.cutoff || (s.stage == Stage::AwaitingMarker && event is MarkerRead)
        }),
{
    let (t, action) = s.step(event, when);
    if answers(s, event) {
        match s.stage {
            Stage::AwaitingMarker => {
                if let PollEventView::MarkerRead(marker) = event {
                    let next = PollView { cutoff: cutoff_after(marker, s.now), ..s };
                    lemma_enter_fetch(next, 0, when);
                }
            },
            Stage::Fetching(i) => {
                match feed_outcome(event, s.cutoff) {
                    Some(Ok(videos)) => {
                        let next = PollView { fresh: s.fresh + videos, ..s };
                        lemma_enter_fetch(next, i + 1, when);
                        assert(s.fresh.is_prefix_of(next.fresh));
                    },
                    Some(Err(error)) => {
                        let next = PollView {
                            failures: s.failures.push(PollFailureView::Fetch(i as int, error)),
                            ..s
                        };
                        lemma_enter_fetch(next, i + 1, when);
                        assert(s.failures.is_prefix_of(next.failures));
                        assert(s.failures.is_prefix_of(t.failures)) by {
                            assert forall|k: int| 0 <= k < s.failures.len() implies s.failures[k]
                                == t.failures[k] by {
                                assert(s.failures[k] == next.failures[k]);
                            }
                        }
                    },
                    None => {},
                }
            },
            Stage::Notifying(j) => {
                match delivery_outcome(event) {
                    Some(Ok(_)) => {
                        lemma_enter_notify(s, j + 1, when);
                    },
                    Some(Err(error)) => {
                        let next = PollView {
                            failures: s.failures.push(PollFailureView::Notify(j as int, error)),
                            ..s
                        };
                        lemma_enter_notify(next, j + 1, when);
                        assert(s.failures.is_prefix_of(next.failures));
                        assert(s.failures.is_prefix_of(t.failures)) by {
                            assert forall|k: int| 0 <= k < s.failures.len() implies s.failures[k]
                                == t.failures[k] by {
                                assert(s.failures[k] == next.failures[k]);
                            }
                        }
                    },
                    None => {},
                }
            },
            Stage::Finished => {},
        }
    }
}

/// Every answer brings the cycle nearer to its end, whatever it says: a
/// cycle is over after at most one answer for the marker, one for each
/// channel and one for each notifier.
pub proof fn lemma_step_makes_progress(s: PollView, event: PollEventView, when: Timestamp)
    requires
        sound(s),
        answers(s, event),
    ensures
        0 <= remaining(s.step(event, when).0) < remaining(s),
{
    match s.stage {
        Stage::AwaitingMarker => {
            if let PollEventView::MarkerRead(marker) = event {
                let next = PollView { cutoff: cutoff_after(marker, s.now), ..s };
                lemma_enter_fetch(next, 0, when);
            }
        },
        Stage::Fetching(i) => {
            match feed_outcome(event, s.cutoff) {
                Some(Ok(videos)) => {
                    lemma_enter_fetch(PollView { fresh: s.fresh + videos, ..s }, i + 1, when);
                },
                Some(Err(error)) => {
                    lemma_enter_fetch(
                        PollView {
                            failures: s.failures.push(PollFailureView::Fetch(i as int, error)),
                            ..s
                        },
                        i + 1,
                        when,
                    );
                },
                None => {},
            }
        },
        Stage::Notifying(j) => {
            match delivery_outcome(event) {
                Some(Ok(_)) => {
                    lemma_enter_notify(s, j + 1, when);
                },
                Some(Err(error)) => {
                    lemma_enter_notify(
                        PollView {
                            failures: s.failures.push(PollFailureView::Notify(j as int, error)),
                            ..s
                        },
                        j + 1,
                        when,
                    );
                },
                None => {},
            }
        },
        Stage::Finished => {},
    }
}

/// An event that does not answer the pending action changes nothing;
/// in particular a finished cycle stays finished and hands out no
/// marker again.
pub proof fn lemma_other_events_change_nothing(
    s: PollView,
    event: PollEventView,
    when: Timestamp,
)
    requires
        !answers(s, event),
    ensures
        s.step(event, when) == (s, s.pending()),
        s.stage == Stage::Finished ==> s.step(event, when).1 == (PollActionView::Finish {
            last_run_at: None,
        }),
{
}

/// The marker moves last. A step ends the cycle exactly when its action
/// is final. A marker that is handed out is the time of that step; it is
/// handed out by the step that ends the cycle, and only where fresh
/// videos were there to deliver or the policy is `AfterEveryRun`. A
/// delivery that is asked for carries every fresh video, written for the
/// notifier that is waited for.
pub proof fn lemma_marker_moves_last(s: PollView, event: PollEventView, when: Timestamp)
    requires
        sound(s),
        s.stage != Stage::Finished,
    ensures
        ({
            let (t, action) = s.step(event, when);
            &&& is_final(action) <==> t.stage == Stage::Finished
            &&& action matches PollActionView::Finish { last_run_at: Some(at) } ==> at == when && (
            t.fresh.len() > 0 || s.policy == AdvancePolicy::AfterEveryRun)
            &&& action matches PollActionView::Deliver(delivery) ==> waits_for(t, delivery)
        }),
{
    let (t, action) = s.step(event, when);
    match s.stage {
        Stage::AwaitingMarker => {
            if let PollEventView::MarkerRead(marker) = event {
                let next = PollView { cutoff: cutoff_after(marker, s.now), ..s };
                lemma_enter_fetch(next, 0, when);
            }
        },
        Stage::Fetching(i) => {
            match feed_outcome(event, s.cutoff) {
                Some(Ok(videos)) => {
                    lemma_enter_fetch(PollView { fresh: s.fresh + videos, ..s }, i + 1, when);
                },
                Some(Err(error)) => {
                    lemma_enter_fetch(
                        PollView {
                            failures: s.failures.push(PollFailureView::Fetch(i as int, error)),
                            ..s
                        },
                        i + 1,
                        when,
                    );
                },
                None => {},
            }
        },
        Stage::Notifying(j) => {
            match delivery_outcome(event) {
                Some(Ok(_)) => {
                    lemma_enter_notify(s, j + 1, when);
                },
                Some(Err(error)) => {
                    lemma_enter_notify(
                        PollView {
                            failures: s.failures.push(PollFailureView::Notify(j as int, error)),
                            ..s
                        },
                        j + 1,
                        when,
                    );
                },
                None => {},
            }
        },
        Stage::Finished => {},
    }
}

/// The marker only moves forward: where the time of a step is not before
/// an earlier marker, neither is the marker that the step hands out.
pub proof fn lemma_marker_moves_forward(
    s: PollView,
    event: PollEventView,
    earlier: Timestamp,
    when: Timestamp,
)
    requires
        sound(s),
        s.stage != Stage::Finished,
        !earlier.is_after(when),
    ensures
        s.step(event, when).1 matches PollActionView::Finish { last_run_at: Some(at) }
            ==> !earlier.is_after(at),
{
    lemma_marker_moves_last(s, event, when);
}

/// A delivery that fails holds nothing back: whatever the answer for a
/// notifier says, the cycle goes on as it does after a success, to the
/// same stage and the same next action; only the record of failures
/// differs. After the last notifier the marker moves all the same.
pub proof fn lemma_failed_delivery_is_passed_over(
    s: PollView,
    event: PollEventView,
    error: NotifyErrorView,
    when: Timestamp,
)
    requires
        sound(s),
        s.stage is Notifying,
        delivery_outcome(event) == Some(Err::<(), _>(error)),
    ensures
        ({
            let (t, action) = s.step(event, when);
            let (u, expected) = s.step(PollEventView::LinesWritten, when);
            &&& t.stage == u.stage
            &&& action == expected
            &&& t.fresh == s.fresh
            &&& t.stage == Stage::Finished ==> action == (PollActionView::Finish {
                last_run_at: Some(when),
            })
        }),
{
    let j = s.stage->Notifying_0;
    let next = PollView {
        failures: s.failures.push(PollFailureView::Notify(j as int, error)),
        ..s
    };
    lemma_enter_notify(s, j + 1, when);
    lemma_enter_notify(next, j + 1, when);
    lemma_enter_notify_ignores_failures(s, next, j + 1, when);
}

/// Turning to the notifiers goes the same way whatever failures were
/// recorded before.
pub proof fn lemma_enter_notify_ignores_failures(
    a: PollView,
    b: PollView,
    from: int,
    when: Timestamp,
)
    requires
        0 <= from,
        same_run(a, b),
        a.fresh == b.fresh,
    ensures
        a.enter_notify(from, when).0.stage == b.enter_notify(from, when).0.stage,
        a.enter_notify(from, when).1 == b.enter_notify(from, when).1,
    decreases a.notifiers.len() - from,
{
    if from < a.notifiers.len() {
        assert(delivery_at(a, from) == delivery_at(b, from));
        match delivery_at(a, from) {
            Ok(_) => {},
            Err(error) => {
                lemma_enter_notify_ignores_failures(
                    PollView {
                        failures: a.failures.push(PollFailureView::Notify(from, error)),
                        ..a
                    },
                    PollView {
                        failures: b.failures.push(PollFailureView::Notify(from, error)),
                        ..b
                    },
                    from + 1,
                    when,
                );
            },
        }
    }
}

/// A feed that fails holds nothing back: the fresh videos stay as they
/// are, the failure is recorded, and the next channel's feed is asked
/// for; after the last channel the cycle turns to the delivery.
pub proof fn lemma_failed_feed_is_passed_over(
    s: PollView,
    event: PollEventView,
    error: FetchErrorView,
    when: Timestamp,
)
    requires
        sound(s),
        s.stage is Fetching,
        feed_outcome(event, s.cutoff) == Some(Err::<Seq<VideoView>, _>(error)),
    ensures
        ({
            let i = s.stage->Fetching_0;
            let (t, action) = s.step(event, when);
            &&& t.fresh == s.fresh
            &&& s.failures.push(PollFailureView::Fetch(i as int, error)).is_prefix_of(t.failures)
            &&& i + 1 < s.channels.len() ==> t.stage == Stage::Fetching((i + 1) as usize) && action
                == (PollActionView::Fetch {
                url: feed_address(RSS_HOST@, s.channels[i + 1].channel_id),
            })
            &&& i + 1 == s.channels.len() ==> !(action is Fetch)
        }),
{
    let i = s.stage->Fetching_0;
    let next = PollView {
        failures: s.failures.push(PollFailureView::Fetch(i as int, error)),
        ..s
    };
    lemma_enter_fetch(next, i + 1, when);
}

/// The cycle after the events of `events`, taken in order.
pub open spec fn run(s: PollView, events: Seq<PollEventView>, when: Timestamp) -> PollView
    decreases events.len(),
{
    if events.len() == 0 {
        s
    } else {
        run(s.step(events[0], when).0, events.drop_first(), when)
    }
}

/// Whether each of `events` answers the action that is pending when it
/// comes.
pub open spec fn all_answer(s: PollView, events: Seq<PollEventView>, when: Timestamp) -> bool
    decreases events.len(),
{
    if events.len() == 0 {
        true
    } else {
        answers(s, events[0]) && all_answer(s.step(events[0], when).0, events.drop_first(), when)
    }
}

/// The fresh videos that one answer for a feed gives: those of the feed
/// where it could be read, and none where it could not.
pub open spec fn contribution(event: PollEventView, cutoff: Timestamp) -> Seq<VideoView> {
    match feed_outcome(event, cutoff) {
        Some(Ok(videos)) => videos,
        _ => Seq::empty(),
    }
}

/// The fresh videos that the answers for a row of feeds give, feed after
/// feed.
pub open spec fn gathered(events: Seq<PollEventView>, cutoff: Timestamp) -> Seq<VideoView>
    decreases events.len(),
{
    if events.len() == 0 {
        Seq::empty()
    } else {
        contribution(events[0], cutoff) + gathered(events.drop_first(), cutoff)
    }
}

/// A cycle comes to its end: no row of answers is longer than the bound
/// that `remaining` gives, which at the start is two more than the
/// number of channels and notifiers together.
pub proof fn lemma_cycle_ends(s: PollView, events: Seq<PollEventView>, when: Timestamp)
    requires
        sound(s),
        all_answer(s, events, when),
    ensures
        events.len() <= remaining(s),
        sound(run(s, events, when)),
        same_run(s, run(s, events, when)),
    decreases events.len(),
{
    if events.len() > 0 {
        lemma_step_makes_progress(s, events[0], when);
        lemma_step_keeps_the_run(s, events[0], when);
        lemma_cycle_ends(s.step(events[0], when).0, events.drop_first(), when);
    } else {
        assert(remaining(s) >= 0) by {
            match s.stage {
                Stage::Notifying(j) => {},
                _ => {},
            }
        }
    }
}

/// What is gathered is what the feeds give. After answers for the feeds
/// of the channels from the pending one on, the fresh videos are those
/// held before and then, channel after channel, the fresh videos of each
/// feed that could be read. A feed that could not be read adds nothing
/// and stops nothing: while channels are left the next one is asked for,
/// and after the last one the cycle has turned to the delivery.
pub proof fn lemma_feeds_are_gathered(s: PollView, events: Seq<PollEventView>, when: Timestamp)
    requires
        sound(s),
        s.stage is Fetching,
        events.len() <= s.channels.len() - s.stage->Fetching_0,
        forall|k: int|
            0 <= k < events.len() ==> feed_outcome(#[trigger] events[k], s.cutoff) is Some,
    ensures
        ({
            let i = s.stage->Fetching_0;
            let t = run(s, events, when);
            &&& t.fresh == s.fresh + gathered(events, s.cutoff)
            &&& t.cutoff == s.cutoff
            &&& i + events.len() < s.channels.len() ==> t.stage == Stage::Fetching(
                (i + events.len()) as usize,
            )
            &&& i + events.len() == s.channels.len() ==> !(t.stage is Fetching)
        }),
    decreases events.len(),
{
    let i = s.stage->Fetching_0;
    if events.len() == 0 {
        assert(s.fresh + Seq::<VideoView>::empty() =~= s.fresh);
    } else {
        let event = events[0];
        let rest = events.drop_first();
        let next = s.step(event, when).0;
        assert(feed_outcome(event, s.cutoff) is Some);
        lemma_step_keeps_the_run(s, event, when);
        match feed_outcome(event, s.cutoff) {
            Some(Ok(videos)) => {
                lemma_enter_fetch(PollView { fresh: s.fresh + videos, ..s }, i + 1, when);
            },
            Some(Err(error)) => {
                lemma_enter_fetch(
                    PollView {
                        failures: s.failures.push(PollFailureView::Fetch(i as int, error)),
                        ..s
                    },
                    i + 1,
                    when,
                );
                assert(s.fresh + Seq::<VideoView>::empty() =~= s.fresh);
            },
            None => {},
        }
        assert(next.fresh == s.fresh + contribution(event, s.cutoff));
        if rest.len() > 0 {
            assert(next.stage == Stage::Fetching((i + 1) as usize));
            assert forall|k: int| 0 <= k < rest.len() implies feed_outcome(
                #[trigger] rest[k],
                next.cutoff,
            ) is Some by {
                assert(rest[k] == events[k + 1]);
            }
            lemma_feeds_are_gathered(next, rest, when);
            assert(run(s, events, when).fresh =~= s.fresh + gathered(events, s.cutoff));
        } else {
            assert(run(next, rest, when) == next);
            assert(gathered(rest, s.cutoff) =~= Seq::<VideoView>::empty());
            assert(next.fresh =~= s.fresh + gathered(events, s.cutoff));
        }
    }
}

/// An account that is not due is left alone: its cycle is over as it
/// starts, nothing is asked for, nothing is gathered or recorded, and
/// no marker is handed out.
pub proof fn lemma_not_due_is_left_alone(
    settings: UserSettingsView,
    now: Timestamp,
    policy: AdvancePolicy,
    cron: bool,
    hours_offset: Option<u16>,
)
    requires
        !due(settings.schedule, now),
    ensures
        ({
            let (s, action) = poll_start(settings, now, policy, cron, hours_offset);
            &&& action == (PollActionView::Finish { last_run_at: None })
            &&& s.stage == Stage::Finished
            &&& s.fresh.len() == 0
            &&& s.failures.len() == 0
        }),
{
}

/// From its start to the delivery, a cycle gathers what the feeds give.
/// For an account that is due, once the marker is read and each channel's
/// feed is answered for, the fresh videos are, channel after channel,
/// those of each feed that could be read that were published after the
/// marker, or within the last seven days where there is no marker. Then
/// the cycle has turned to the delivery: it asks for no feed any more.
pub proof fn lemma_cycle_gathers_all_feeds(
    settings: UserSettingsView,
    now: Timestamp,
    policy: AdvancePolicy,
    cron: bool,
    marker: Option<Timestamp>,
    feeds: Seq<PollEventView>,
    when: Timestamp,
)
    requires
        due(settings.schedule, now),
        settings.channels.len() <= usize::MAX,
        settings.notifiers.len() <= usize::MAX,
        feeds.len() == settings.channels.len(),
        forall|k: int|
            0 <= k < feeds.len() ==> (#[trigger] feeds[k]) is FeedServed || feeds[k] is FeedFailed,
    ensures
        ({
            let (started, first) = poll_start(settings, now, policy, cron, None);
            let (reading, second) = started.step(PollEventView::MarkerRead(marker), when);
            let done = run(reading, feeds, when);
            &&& first == PollActionView::ReadLastRun
            &&& done.fresh == gathered(feeds, cutoff_after(marker, now))
            &&& !(done.stage is Fetching)
            &&& !(done.stage is AwaitingMarker)
        }),
{
    let (started, first) = poll_start(settings, now, policy, cron, None);
    let cutoff = cutoff_after(marker, now);
    let next = PollView { cutoff, ..started };
    lemma_enter_fetch(next, 0, when);
    let (reading, second) = started.step(PollEventView::MarkerRead(marker), when);
    assert(reading.fresh =~= Seq::<VideoView>::empty());
    if settings.channels.len() == 0 {
        assert(feeds.len() == 0);
        assert(gathered(feeds, cutoff) =~= Seq::<VideoView>::empty());
    } else {
        assert(reading.stage == Stage::Fetching(0));
        assert forall|k: int| 0 <= k < feeds.len() implies feed_outcome(
            #[trigger] feeds[k],
            reading.cutoff,
        ) is Some by {
            assert(feeds[k] is FeedServed || feeds[k] is FeedFailed);
        }
        lemma_feeds_are_gathered(reading, feeds, when);
        assert(Seq::<VideoView>::empty() + gathered(feeds, cutoff) =~= gathered(feeds, cutoff));
        // The stage after the feeds is one of the delivery or the end.
        lemma_run_stays_past_the_marker(reading, feeds, when);
    }
}

/// Once the marker is read, no step goes back to waiting for it.
pub proof fn lemma_run_stays_past_the_marker(
    s: PollView,
    events: Seq<PollEventView>,
    when: Timestamp,
)
    requires
        sound(s),
        !(s.stage is AwaitingMarker),
    ensures
        !(run(s, events, when).stage is AwaitingMarker),
    decreases events.len(),
{
    if events.len() > 0 {
        let event = events[0];
        lemma_step_keeps_the_run(s, event, when);
        if answers(s, event) {
            match s.stage {
                Stage::Fetching(i) => {
                    match feed_outcome(event, s.cutoff) {
                        Some(Ok(videos)) => {
                            lemma_enter_fetch(
                                PollView { fresh: s.fresh + videos, ..s },
                                i + 1,
                                when,
                            );
                        },
                        Some(Err(error)) => {
                            lemma_enter_fetch(
                                PollView {
                                    failures: s.failures.push(
                                        PollFailureView::Fetch(i as int, error),
                                    ),
                                    ..s
                                },
                                i + 1,
                                when,
                            );
                        },
                        None => {},
                    }
                },
                Stage::Notifying(j) => {
                    match delivery_outcome(event) {
                        Some(Ok(_)) => {
                            lemma_enter_notify(s, j + 1, when);
                        },
                        Some(Err(error)) => {
                            lemma_enter_notify(
                                PollView {
                                    failures: s.failures.push(
                                        PollFailureView::Notify(j as int, error),
                                    ),
                                    ..s
                                },
                                j + 1,
                                when,
                            );
                        },
                        None => {},
                    }
                },
                _ => {},
            }
        }
        lemma_run_stays_past_the_marker(s.step(event, when).0, events.drop_first(), when);
    }
}

/// Turning to the notifiers at another time leads to the same cycle and
/// the same action, but for the marker that is handed out at the end.
pub proof fn lemma_enter_notify_at_any_time(s: PollView, from: int, a: Timestamp, b: Timestamp)
    requires
        0 <= from,
    ensures
        s.enter_notify(from, a).0 == s.enter_notify(from, b).0,
        !(s.enter_notify(from, a).1 is Finish) ==> s.enter_notify(from, a).1 == s.enter_notify(
            from,
            b,
        ).1,
        s.enter_notify(from, a).1 is Finish <==> s.enter_notify(from, b).1 is Finish,
    decreases s.notifiers.len() - from,
{
    if from < s.notifiers.len() {
        match delivery_at(s, from) {
            Ok(_) => {},
            Err(error) => {
                lemma_enter_notify_at_any_time(
                    PollView {
                        failures: s.failures.push(PollFailureView::Notify(from, error)),
                        ..s
                    },
                    from + 1,
                    a,
                    b,
                );
            },
        }
    }
}

/// The time at which an event is taken in moves nothing but the marker:
/// the cycle after the event is the same whenever it comes, and so is
/// the action, unless it ends the cycle.
pub proof fn lemma_time_moves_only_the_marker(
    s: PollView,
    event: PollEventView,
    a: Timestamp,
    b: Timestamp,
)
    ensures
        s.step(event, a).0 == s.step(event, b).0,
        !(s.step(event, a).1 is Finish) ==> s.step(event, a).1 == s.step(event, b).1,
        s.step(event, a).1 is Finish <==> s.step(event, b).1 is Finish,
{
    match s.stage {
        Stage::AwaitingMarker => {
            if let PollEventView::MarkerRead(marker) = event {
                let next = PollView { cutoff: cutoff_after(marker, s.now), ..s };
                if next.channels.len() == 0 && next.fresh.len() > 0 {
                    lemma_enter_notify_at_any_time(next, 0, a, b);
                }
            }
        },
        Stage::Fetching(i) => {
            match feed_outcome(event, s.cutoff) {
                Some(Ok(videos)) => {
                    lemma_enter_notify_at_any_time(
                        PollView { fresh: s.fresh + videos, ..s },
                        0,
                        a,
                        b,
                    );
                },
                Some(Err(error)) => {
                    lemma_enter_notify_at_any_time(
                        PollView {
                            failures: s.failures.push(PollFailureView::Fetch(i as int, error)),
                            ..s
                        },
                        0,
                        a,
                        b,
                    );
                },
                None => {},
            }
        },
        Stage::Notifying(j) => {
            match delivery_outcome(event) {
                Some(Ok(_)) => {
                    lemma_enter_notify_at_any_time(s, j + 1, a, b);
                },
                Some(Err(error)) => {
                    lemma_enter_notify_at_any_time(
                        PollView {
                            failures: s.failures.push(PollFailureView::Notify(j as int, error)),
                            ..s
                        },
                        j + 1,
                        a,
                        b,
                    );
                },
                None => {},
            }
        },
        Stage::Finished => {},
    }
}

} // verus!
