//! The remote account as the command line sees it: what is checked
//! before the service is asked, and what its answers say.

use crate::channel::API_HOST;
use crate::json::{as_text, json_member, json_of, json_of_text, json_text, member, parse_json, Json};
use crate::model::{find_first, option_text, result_view};
use crate::user_settings::{is_slack_notifier, UserSettings, UserSettingsView};
use vstd::prelude::*;
use vstd::string::StringExecFns;

verus! {

/// Why the remote account was not made, changed or removed.
#[derive(Debug)]
pub enum RemoteError {
    /// The settings carry the key of a remote account already.
    AlreadyRegistered,
    /// The settings hold no Slack notifier.
    MissingSlackNotifier,
    /// The settings carry no key of a remote account.
    NotRegistered,
    /// The service did not make the account; the text is its answer.
    RegisterFailed(String),
    /// The service did not remove the account; the text is its answer.
    DeleteFailed(String),
    /// The service did not change the account; the text is its answer.
    UpdateFailed(String),
    /// The service's answer names no key.
    Malformed,
}

/// A refusal as a mathematical value.
pub enum RemoteErrorView {
    AlreadyRegistered,
    MissingSlackNotifier,
    NotRegistered,
    RegisterFailed(Seq<char>),
    DeleteFailed(Seq<char>),
    UpdateFailed(Seq<char>),
    Malformed,
}

impl View for RemoteError {
    type V = RemoteErrorView;

    open spec fn view(&self) -> RemoteErrorView {
        match self {
            RemoteError::AlreadyRegistered => RemoteErrorView::AlreadyRegistered,
            RemoteError::MissingSlackNotifier => RemoteErrorView::MissingSlackNotifier,
            RemoteError::NotRegistered => RemoteErrorView::NotRegistered,
            RemoteError::RegisterFailed(answer) => RemoteErrorView::RegisterFailed(answer@),
            RemoteError::DeleteFailed(answer) => RemoteErrorView::DeleteFailed(answer@),
            RemoteError::UpdateFailed(answer) => RemoteErrorView::UpdateFailed(answer@),
            RemoteError::Malformed => RemoteErrorView::Malformed,
        }
    }
}

impl DeepView for RemoteError {
    type V = RemoteErrorView;

    open spec fn deep_view(&self) -> RemoteErrorView {
        self@
    }
}

/// The sentence that reports a refusal.
pub open spec fn remote_error_text(e: RemoteErrorView) -> Seq<char> {
    match e {
        RemoteErrorView::AlreadyRegistered => "Remote account is already registered."@,
        RemoteErrorView::MissingSlackNotifier =>
            "You must configure a Slack notifier to register a remote account:\nhttps://github.com/pawurb/yt-sub-rs#notifiers-configuration"@,
        RemoteErrorView::NotRegistered => "Remote account is not registered."@,
        RemoteErrorView::RegisterFailed(answer) => "Failed to register remote account: "@ + answer,
        RemoteErrorView::DeleteFailed(answer) => "Failed to delete remote account: "@ + answer,
        RemoteErrorView::UpdateFailed(answer) => "Failed to update remote account: "@ + answer,
        RemoteErrorView::Malformed => "The answer names no API key"@,
    }
}

impl RemoteError {
    /// The sentence that reports the refusal.
    pub fn message(&self) -> (text: String)
        ensures
            text@ == remote_error_text(self@),
    {
        match self {
            RemoteError::AlreadyRegistered => String::from_str(
                "Remote account is already registered.",
            ),
            RemoteError::MissingSlackNotifier => String::from_str(
                "You must configure a Slack notifier to register a remote account:\nhttps://github.com/pawurb/yt-sub-rs#notifiers-configuration",
            ),
            RemoteError::NotRegistered => String::from_str("Remote account is not registered."),
            RemoteError::RegisterFailed(answer) => {
                let mut text = String::from_str("Failed to register remote account: ");
                text.append(answer.as_str());
                text
            },
            RemoteError::DeleteFailed(answer) => {
                let mut text = String::from_str("Failed to delete remote account: ");
                text.append(answer.as_str());
                text
            },
            RemoteError::UpdateFailed(answer) => {
                let mut text = String::from_str("Failed to update remote account: ");
                text.append(answer.as_str());
                text
            },
            RemoteError::Malformed => String::from_str("The answer names no API key"),
        }
    }
}

/// The address of the accounts on `host`.
pub open spec fn account_address(host: Seq<char>) -> Seq<char> {
    host + "/account"@
}

/// What stands in the way of asking for a remote account: a key in the
/// settings, and then the lack of a Slack notifier.
pub open spec fn may_register(settings: UserSettingsView) -> Result<(), RemoteErrorView> {
    if settings.api_key is Some {
        Err(RemoteErrorView::AlreadyRegistered)
    } else if find_first(settings.notifiers, is_slack_notifier()) is None {
        Err(RemoteErrorView::MissingSlackNotifier)
    } else {
        Ok(())
    }
}

/// The key that the service's answer `doc` names.
pub open spec fn named_key(doc: Json) -> Option<Seq<char>> {
    match json_member(doc, "api_key"@) {
        Some(value) => json_text(value),
        None => None,
    }
}

/// What the service's answer to a request for an account says: with
/// status 201 the key of the new account, and with any other status
/// that no account was made.
pub open spec fn register_result(status: u16, body: Seq<char>) -> Result<
    Seq<char>,
    RemoteErrorView,
> {
    if status != 201 {
        Err(RemoteErrorView::RegisterFailed(body))
    } else {
        match json_of_text(body) {
            None => Err(RemoteErrorView::Malformed),
            Some(doc) => match named_key(doc) {
                Some(key) => Ok(key),
                None => Err(RemoteErrorView::Malformed),
            },
        }
    }
}

/// Whether `status` reports a success: it is one of 200 to 299.
pub open spec fn is_success(status: u16) -> bool {
    200 <= status < 300
}

/// The address of the accounts on `host` or, with none given, on the
/// usual service.
pub fn account_url(host: Option<&str>) -> (url: String)
    ensures
        url@ == account_address(
            match host {
                Some(h) => h@,
                None => API_HOST@,
            },
        ),
{
    let mut url = match host {
        Some(h) => String::from_str(h),
        None => String::from_str(API_HOST),
    };
    url.append("/account");
    url
}

/// Whether the service may be asked for a remote account for these
/// settings.
pub fn create_account_request(settings: &UserSettings) -> (checked: Result<(), RemoteError>)
    ensures
        result_view(checked) == may_register(settings@),
{
    if settings.api_key.is_some() {
        return Err(RemoteError::AlreadyRegistered);
    }
    if settings.get_slack_notifier().is_none() {
        return Err(RemoteError::MissingSlackNotifier);
    }
    Ok(())
}

/// The key that the service's answer, as a JSON document, names.
pub fn key_from_json(doc: &serde_json::Value) -> (key: Option<String>)
    ensures
        option_text(key) == named_key(json_of(*doc)),
{
    match member(doc, "api_key") {
        Some(value) => match as_text(value) {
            Some(key) => Some(key.to_owned()),
            None => None,
        },
        None => None,
    }
}

/// Takes in the service's answer to a request for an account: with
/// status 201 the settings get the key that the answer names.
pub fn create_account(settings: &mut UserSettings, status: u16, body: String) -> (done: Result<
    (),
    RemoteError,
>)
    ensures
        match register_result(status, body@) {
            Ok(key) => done is Ok && final(settings)@ == (UserSettingsView {
                api_key: Some(key),
                ..old(settings)@
            }),
            Err(e) => result_view(done) == Err::<(), _>(e) && *final(settings) == *old(settings),
        },
{
    if status != 201 {
        return Err(RemoteError::RegisterFailed(body));
    }
    let key = match parse_json(body.as_str()) {
        None => { return Err(RemoteError::Malformed); },
        Some(doc) => match key_from_json(&doc) {
            Some(key) => key,
            None => { return Err(RemoteError::Malformed); },
        },
    };
    settings.api_key = Some(key);
    Ok(())
}

/// The key under which the service is asked to remove or change the
/// remote account.
pub fn remote_key(settings: &UserSettings) -> (key: Result<String, RemoteError>)
    ensures
        match settings@.api_key {
            Some(k) => result_view(key) == Ok::<_, RemoteErrorView>(k),
            None => result_view(key) == Err::<Seq<char>, _>(RemoteErrorView::NotRegistered),
        },
{
    match &settings.api_key {
        Some(key) => Ok(key.clone()),
        None => Err(RemoteError::NotRegistered),
    }
}

/// Takes in the service's answer to a request to remove the account:
/// with a status of success the settings lose their key.
pub fn delete_account(settings: &mut UserSettings, status: u16, body: String) -> (done: Result<
    (),
    RemoteError,
>)
    ensures
        is_success(status) ==> done is Ok && final(settings)@ == (UserSettingsView {
            api_key: None,
            ..old(settings)@
        }),
        !is_success(status) ==> result_view(done) == Err::<(), _>(
            RemoteErrorView::DeleteFailed(body@),
        ) && *final(settings) == *old(settings),
{
    if status >= 200 && status < 300 {
        settings.api_key = None;
        Ok(())
    } else {
        Err(RemoteError::DeleteFailed(body))
    }
}

/// What the service's answer to a request to change the account says.
pub fn sync_account(status: u16, body: String) -> (done: Result<(), RemoteError>)
    ensures
        is_success(status) ==> done is Ok,
        !is_success(status) ==> result_view(done) == Err::<(), _>(
            RemoteErrorView::UpdateFailed(body@),
        ),
{
    if status >= 200 && status < 300 {
        Ok(())
    } else {
        Err(RemoteError::UpdateFailed(body))
    }
}

} // verus!
