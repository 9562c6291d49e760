//! Where notifications go, and what has to be sent to get them there.

use crate::json::{json_quote, json_quoted};
use crate::model::result_view;
use crate::text::{join, joined};
use vstd::prelude::*;
use vstd::string::StringExecFns;

verus! {

/// The name under which messages are posted to Slack.
pub const SLACK_USERNAME: &'static str = "yt-sub-rs";

/// The icon with which messages are posted to Slack.
pub const SLACK_ICON: &'static str = ":exclamation:";

/// What stands between two notifications in one Slack message.
pub const SLACK_SEPARATOR: &'static str = "\n\n";

/// How to reach a Slack channel.
#[derive(Debug)]
pub struct SlackConfig {
    pub webhook_url: String,
    pub channel: String,
}

/// A Slack configuration as a mathematical value.
pub struct SlackConfigView {
    pub webhook_url: Seq<char>,
    pub channel: Seq<char>,
}

impl View for SlackConfig {
    type V = SlackConfigView;

    open spec fn view(&self) -> SlackConfigView {
        SlackConfigView { webhook_url: self.webhook_url@, channel: self.channel@ }
    }
}

impl Clone for SlackConfig {
    fn clone(&self) -> (copy: Self)
        ensures
            copy == *self,
    {
        SlackConfig { webhook_url: self.webhook_url.clone(), channel: self.channel.clone() }
    }
}

impl PartialEq for SlackConfig {
    fn eq(&self, other: &Self) -> (same: bool) {
        self.webhook_url == other.webhook_url && self.channel == other.channel
    }
}

impl vstd::std_specs::cmp::PartialEqSpecImpl for SlackConfig {
    open spec fn obeys_eq_spec() -> bool {
        true
    }

    open spec fn eq_spec(&self, other: &Self) -> bool {
        self@ == other@
    }
}

/// A way to deliver notifications.
#[non_exhaustive]
#[derive(Debug)]
pub enum Notifier {
    /// Lines on standard output or in the log.
    Log(),
    /// One message to a Slack webhook.
    Slack(SlackConfig),
    /// Not available yet: every delivery fails.
    Telegram,
}

/// A notifier as a mathematical value.
pub enum NotifierView {
    Log,
    Slack(SlackConfigView),
    Telegram,
}

impl View for Notifier {
    type V = NotifierView;

    open spec fn view(&self) -> NotifierView {
        match self {
            Notifier::Log() => NotifierView::Log,
            Notifier::Slack(config) => NotifierView::Slack(config@),
            Notifier::Telegram => NotifierView::Telegram,
        }
    }
}

impl DeepView for Notifier {
    type V = NotifierView;

    open spec fn deep_view(&self) -> NotifierView {
        self@
    }
}

impl Default for Notifier {
    fn default() -> (notifier: Self)
        ensures
            notifier == Notifier::Log(),
    {
        Notifier::Log()
    }
}

impl Clone for Notifier {
    fn clone(&self) -> (copy: Self)
        ensures
            copy == *self,
    {
        match self {
            Notifier::Log() => Notifier::Log(),
            Notifier::Slack(config) => Notifier::Slack(config.clone()),
            Notifier::Telegram => Notifier::Telegram,
        }
    }
}

impl PartialEq for Notifier {
    fn eq(&self, other: &Self) -> (same: bool) {
        match (self, other) {
            (Notifier::Log(), Notifier::Log()) => true,
            (Notifier::Slack(a), Notifier::Slack(b)) => a == b,
            (Notifier::Telegram, Notifier::Telegram) => true,
            _ => false,
        }
    }
}

impl vstd::std_specs::cmp::PartialEqSpecImpl for Notifier {
    open spec fn obeys_eq_spec() -> bool {
        true
    }

    open spec fn eq_spec(&self, other: &Self) -> bool {
        self@ == other@
    }
}

/// Why a delivery did not happen.
#[derive(Debug)]
pub enum NotifyError {
    /// The notifier's kind cannot deliver anything yet.
    NotImplemented,
    /// The webhook answered with a status other than 200; the text is the
    /// body of its answer.
    Rejected(String),
    /// The request could not be made or its answer could not be read.
    Transport(String),
}

/// A delivery failure as a mathematical value.
pub enum NotifyErrorView {
    NotImplemented,
    Rejected(Seq<char>),
    Transport(Seq<char>),
}

impl View for NotifyError {
    type V = NotifyErrorView;

    open spec fn view(&self) -> NotifyErrorView {
        match self {
            NotifyError::NotImplemented => NotifyErrorView::NotImplemented,
            NotifyError::Rejected(body) => NotifyErrorView::Rejected(body@),
            NotifyError::Transport(reason) => NotifyErrorView::Transport(reason@),
        }
    }
}

impl DeepView for NotifyError {
    type V = NotifyErrorView;

    open spec fn deep_view(&self) -> NotifyErrorView {
        self@
    }
}

/// The sentence that reports a delivery failure.
pub open spec fn notify_error_text(e: NotifyErrorView) -> Seq<char> {
    match e {
        NotifyErrorView::NotImplemented => "Telegram notifications are not implemented"@,
        NotifyErrorView::Rejected(body) => "Failed to send message to Slack: "@ + body,
        NotifyErrorView::Transport(reason) => reason,
    }
}

impl NotifyError {
    /// The sentence that reports the failure. A rejection carries the
    /// webhook's answer word for word.
    pub fn message(&self) -> (text: String)
        ensures
            text@ == notify_error_text(self@),
    {
        match self {
            NotifyError::NotImplemented => String::from_str(
                "Telegram notifications are not implemented",
            ),
            NotifyError::Rejected(body) => {
                let mut text = String::from_str("Failed to send message to Slack: ");
                text.append(body.as_str());
                text
            },
            NotifyError::Transport(reason) => reason.clone(),
        }
    }
}

/// The object that is posted to a Slack webhook.
#[derive(Debug)]
pub struct SlackMessage {
    pub channel: String,
    pub icon_emoji: String,
    pub username: String,
    pub text: String,
    pub unfurl_links: bool,
}

/// A Slack message as a mathematical value.
pub struct SlackMessageView {
    pub channel: Seq<char>,
    pub icon_emoji: Seq<char>,
    pub username: Seq<char>,
    pub text: Seq<char>,
    pub unfurl_links: bool,
}

impl View for SlackMessage {
    type V = SlackMessageView;

    open spec fn view(&self) -> SlackMessageView {
        SlackMessageView {
            channel: self.channel@,
            icon_emoji: self.icon_emoji@,
            username: self.username@,
            text: self.text@,
            unfurl_links: self.unfurl_links,
        }
    }
}

/// The message that carries `messages` to the Slack channel `channel`:
/// all of them in one text, a blank line between neighbours, under the
/// fixed name and icon, with link previews off.
pub open spec fn slack_message(channel: Seq<char>, messages: Seq<Seq<char>>) -> SlackMessageView {
    SlackMessageView {
        channel,
        icon_emoji: SLACK_ICON@,
        username: SLACK_USERNAME@,
        text: joined(messages, SLACK_SEPARATOR@),
        unfurl_links: false,
    }
}

/// The JSON text of a Slack message: one object with the channel, the
/// icon, the text, the switch for link previews and the name, in this
/// order.
pub open spec fn slack_message_text(message: SlackMessageView) -> Seq<char> {
    let previews = if message.unfurl_links {
        "true"@
    } else {
        "false"@
    };
    "{\"channel\":"@ + json_quoted(message.channel) + ",\"icon_emoji\":"@ + json_quoted(
        message.icon_emoji,
    ) + ",\"text\":"@ + json_quoted(message.text) + ",\"unfurl_links\":"@ + previews
        + ",\"username\":"@ + json_quoted(message.username) + "}"@
}

impl SlackMessage {
    /// The message as the JSON text that is posted.
    pub fn to_json(&self) -> (text: String)
        ensures
            text@ == slack_message_text(self@),
    {
        let mut text = String::from_str("{\"channel\":");
        text.append(json_quote(self.channel.as_str()).as_str());
        text.append(",\"icon_emoji\":");
        text.append(json_quote(self.icon_emoji.as_str()).as_str());
        text.append(",\"text\":");
        text.append(json_quote(self.text.as_str()).as_str());
        text.append(",\"unfurl_links\":");
        if self.unfurl_links {
            text.append("true");
        } else {
            text.append("false");
        }
        text.append(",\"username\":");
        text.append(json_quote(self.username.as_str()).as_str());
        text.append("}");
        text
    }
}

/// What has to be done to deliver a batch of notifications.
#[derive(Debug)]
pub enum Delivery {
    /// Write each line: to the log where `cron` is set, else to standard
    /// output.
    Lines { lines: Vec<String>, cron: bool },
    /// Post `message` as JSON to `webhook_url`.
    Post { webhook_url: String, message: SlackMessage },
}

/// A delivery as a mathematical value.
pub enum DeliveryView {
    Lines { lines: Seq<Seq<char>>, cron: bool },
    Post { webhook_url: Seq<char>, message: SlackMessageView },
}

impl View for Delivery {
    type V = DeliveryView;

    open spec fn view(&self) -> DeliveryView {
        match self {
            Delivery::Lines { lines, cron } => DeliveryView::Lines {
                lines: lines.deep_view(),
                cron: *cron,
            },
            Delivery::Post { webhook_url, message } => DeliveryView::Post {
                webhook_url: webhook_url@,
                message: message@,
            },
        }
    }
}

impl DeepView for Delivery {
    type V = DeliveryView;

    open spec fn deep_view(&self) -> DeliveryView {
        self@
    }
}

/// What `notifier` has to do with `messages`: a log notifier writes each
/// as a line, a Slack notifier posts them as one message, and a Telegram
/// notifier fails.
pub open spec fn delivery_for(
    notifier: NotifierView,
    messages: Seq<Seq<char>>,
    cron: bool,
) -> Result<DeliveryView, NotifyErrorView> {
    match notifier {
        NotifierView::Log => Ok(DeliveryView::Lines { lines: messages, cron }),
        NotifierView::Slack(config) => Ok(
            DeliveryView::Post {
                webhook_url: config.webhook_url,
                message: slack_message(config.channel, messages),
            },
        ),
        NotifierView::Telegram => Err(NotifyErrorView::NotImplemented),
    }
}

/// How a Slack webhook's answer settles a delivery: status 200 is
/// success, and any other status fails with the answer's body.
pub open spec fn slack_outcome(status: u16, body: Seq<char>) -> Result<(), NotifyErrorView> {
    if status == 200 {
        Ok(())
    } else {
        Err(NotifyErrorView::Rejected(body))
    }
}

/// The outcome of a post to a Slack webhook that answered with `status`
/// and `body`.
pub fn slack_result(status: u16, body: String) -> (outcome: Result<(), NotifyError>)
    ensures
        result_view(outcome) == slack_outcome(status, body@),
{
    if status == 200 {
        Ok(())
    } else {
        Err(NotifyError::Rejected(body))
    }
}

impl Notifier {
    /// Whether this is a Slack notifier.
    pub fn is_slack(&self) -> (b: bool)
        ensures
            b == (self is Slack),
    {
        match self {
            Notifier::Slack(_) => true,
            _ => false,
        }
    }

    /// What has to be done to deliver `messages` through this notifier.
    /// Nothing is sent here: the caller performs the delivery.
    pub fn notify(&self, messages: Vec<String>, cron: bool) -> (plan: Result<
        Delivery,
        NotifyError,
    >)
        ensures
            result_view(plan) == delivery_for(self@, messages.deep_view(), cron),
    {
        match self {
            Notifier::Log() => Ok(Delivery::Lines { lines: messages, cron }),
            Notifier::Slack(config) => {
                let text = join(&messages, SLACK_SEPARATOR);
                Ok(
                    Delivery::Post {
                        webhook_url: config.webhook_url.clone(),
                        message: SlackMessage {
                            channel: config.channel.clone(),
                            icon_emoji: String::from_str(SLACK_ICON),
                            username: String::from_str(SLACK_USERNAME),
                            text,
                            unfurl_links: false,
                        },
                    },
                )
            },
            Notifier::Telegram => Err(NotifyError::NotImplemented),
        }
    }
}

} // verus!
