//! Remote accounts: what is checked before one is made, changed or
//! removed, and what the store holds afterwards.
//!
//! The settings of an account are stored as text under the account's
//! key. This module does not write that text: the caller hands it in.
//!
//! Whether a call on the store succeeds is the store's to say. So each
//! function here that asks the store is no more than the call and a
//! function of what the store answered (`key_refusal`,
//! `update_account_answer`, `account_found`, `account_marker`,
//! `new_account_list`), and that function says exactly what follows from
//! each answer. What is decided without the store is promised outright.

use crate::json::{json_quote, json_quoted};
use crate::model::{find_first, lemma_first_where, result_view};
use crate::notifier::{
    delivery_for, Delivery, DeliveryView, NotifierView, NotifyError, NotifyErrorView,
};
use crate::store::{stored, KvWrapper, StoreError};
use crate::timestamp::Timestamp;
use crate::text::joined;
use crate::user_settings::{
    is_slack_notifier, within_limits, ConfigError, UserSettings, UserSettingsView,
};
use crate::users::{
    is_bad_marker, is_listable, lemma_saved_user_is_listed, list_with, listed_ids, marker_held,
    marker_key, marker_read, other_than, read_view, user_error_text, User, UserError,
    UserErrorView, USER_IDS_KEY,
};
use vstd::prelude::*;
use vstd::string::StringExecFns;

verus! {

/// What a new account is told through its Slack notifier.
pub const WELCOME: &'static str =
    "Registered remote account. You'll receive notifications about new videos.";

/// Why an account was not made, changed or removed.
#[derive(Debug)]
pub enum AccountError {
    /// The settings carry the key of an account that the store knows.
    AlreadyRegistered(String),
    /// The settings carry a key that the store does not know.
    InvalidApiKey(String),
    /// The settings hold no Slack notifier.
    MissingSlackNotifier,
    /// The welcome could not be delivered through the Slack notifier.
    InvalidSlackNotifier(NotifyError),
    /// The settings carry no key.
    MissingApiKey,
    /// The store does not know the key that the settings carry.
    UnknownApiKey,
    /// The store holds no settings under the key.
    NotFound,
    /// What the store holds as the account's marker of the last run is no
    /// date and time.
    BadMarker(String),
    /// The settings are beyond the limits of a remote account.
    Config(ConfigError),
    /// The store failed.
    Store(StoreError),
}

/// A refusal as a mathematical value.
pub enum AccountErrorView {
    AlreadyRegistered(Seq<char>),
    InvalidApiKey(Seq<char>),
    MissingSlackNotifier,
    InvalidSlackNotifier(NotifyErrorView),
    MissingApiKey,
    UnknownApiKey,
    NotFound,
    BadMarker(Seq<char>),
    Config(ConfigError),
    Store(Seq<char>),
}

impl View for AccountError {
    type V = AccountErrorView;

    open spec fn view(&self) -> AccountErrorView {
        match self {
            AccountError::AlreadyRegistered(key) => AccountErrorView::AlreadyRegistered(key@),
            AccountError::InvalidApiKey(key) => AccountErrorView::InvalidApiKey(key@),
            AccountError::MissingSlackNotifier => AccountErrorView::MissingSlackNotifier,
            AccountError::InvalidSlackNotifier(e) => AccountErrorView::InvalidSlackNotifier(e@),
            AccountError::MissingApiKey => AccountErrorView::MissingApiKey,
            AccountError::UnknownApiKey => AccountErrorView::UnknownApiKey,
            AccountError::NotFound => AccountErrorView::NotFound,
            AccountError::BadMarker(text) => AccountErrorView::BadMarker(text@),
            AccountError::Config(e) => AccountErrorView::Config(*e),
            AccountError::Store(e) => AccountErrorView::Store(e@),
        }
    }
}

impl DeepView for AccountError {
    type V = AccountErrorView;

    open spec fn deep_view(&self) -> AccountErrorView {
        self@
    }
}

/// The sentence that reports a refusal.
pub open spec fn account_error_text(e: AccountErrorView) -> Seq<char> {
    match e {
        AccountErrorView::AlreadyRegistered(key) => "Already registered with API key: "@ + key,
        AccountErrorView::InvalidApiKey(key) => "Invalid API key present: '"@ + key
            + "'. Please remove it and try again"@,
        AccountErrorView::MissingSlackNotifier => "Missing Slack notifier settings"@,
        AccountErrorView::InvalidSlackNotifier(e) =>
            "Invalid Slack notifier settings. Sending message failed: "@
            + crate::notifier::notify_error_text(e),
        AccountErrorView::MissingApiKey => "Missing API key!"@,
        AccountErrorView::UnknownApiKey => "Invalid API key present!"@,
        AccountErrorView::NotFound => "No settings found for user"@,
        AccountErrorView::BadMarker(text) => user_error_text(UserErrorView::BadMarker(text)),
        AccountErrorView::Config(e) => match e {
            ConfigError::TooManyChannels => "Too many channels!"@,
            ConfigError::TooManyNotifiers => "Too many notifiers!"@,
        },
        AccountErrorView::Store(reason) => reason,
    }
}

impl AccountError {
    /// The sentence that reports the refusal.
    pub fn message(&self) -> (text: String)
        ensures
            text@ == account_error_text(self@),
    {
        match self {
            AccountError::AlreadyRegistered(key) => {
                let mut text = String::from_str("Already registered with API key: ");
                text.append(key.as_str());
                text
            },
            AccountError::InvalidApiKey(key) => {
                let mut text = String::from_str("Invalid API key present: '");
                text.append(key.as_str());
                text.append("'. Please remove it and try again");
                text
            },
            AccountError::MissingSlackNotifier => String::from_str(
                "Missing Slack notifier settings",
            ),
            AccountError::InvalidSlackNotifier(e) => {
                let mut text = String::from_str(
                    "Invalid Slack notifier settings. Sending message failed: ",
                );
                text.append(e.message().as_str());
                text
            },
            AccountError::MissingApiKey => String::from_str("Missing API key!"),
            AccountError::UnknownApiKey => String::from_str("Invalid API key present!"),
            AccountError::NotFound => String::from_str("No settings found for user"),
            AccountError::BadMarker(found) => {
                let mut text = String::from_str("Failed to parse last_run_at: ");
                text.append(found.as_str());
                text
            },
            AccountError::Config(e) => e.message(),
            AccountError::Store(e) => e.reason.clone(),
        }
    }
}

/// Why settings that carry the key `key` get no account, by what a read
/// of the store under that key says: the store knows the key, or it does
/// not, or it failed.
pub open spec fn key_refused(
    key: Seq<char>,
    found: Result<Option<Seq<char>>, Seq<char>>,
) -> AccountErrorView {
    match found {
        Ok(Some(_)) => AccountErrorView::AlreadyRegistered(key),
        Ok(None) => AccountErrorView::InvalidApiKey(key),
        Err(reason) => AccountErrorView::Store(reason),
    }
}

/// The welcome to deliver through the first Slack notifier of
/// `notifiers`, or that there is none.
pub open spec fn welcome_for(notifiers: Seq<NotifierView>) -> Result<
    DeliveryView,
    AccountErrorView,
> {
    match find_first(notifiers, is_slack_notifier()) {
        None => Err(AccountErrorView::MissingSlackNotifier),
        Some(notifier) => match delivery_for(notifier, seq![WELCOME@], false) {
            Ok(delivery) => Ok(delivery),
            Err(e) => Err(AccountErrorView::InvalidSlackNotifier(e)),
        },
    }
}

/// What stands in the way of making an account for `settings` in a store
/// with `entries`, or, where nothing does, the welcome to deliver. A key
/// in the settings is looked at first, then the Slack notifier.
pub open spec fn registration_check(
    settings: UserSettingsView,
    entries: Map<Seq<char>, Seq<char>>,
) -> Result<DeliveryView, AccountErrorView> {
    match settings.api_key {
        Some(key) => Err(key_refused(key, Ok(stored(entries, key)))),
        None => welcome_for(settings.notifiers),
    }
}

/// The settings of the new account with the key `api_key`, once the
/// welcome was delivered or not: the settings with the key, where the
/// welcome arrived and the settings are within the limits.
pub open spec fn registered_settings(
    settings: UserSettingsView,
    delivered: Result<(), NotifyErrorView>,
    api_key: Seq<char>,
) -> Result<UserSettingsView, AccountErrorView> {
    match delivered {
        Err(e) => Err(AccountErrorView::InvalidSlackNotifier(e)),
        Ok(_) => {
            let keyed = UserSettingsView { api_key: Some(api_key), ..settings };
            match within_limits(keyed) {
                Err(e) => Err(AccountErrorView::Config(e)),
                Ok(_) => Ok(keyed),
            }
        },
    }
}

/// What stands in the way of changing the account of `settings`, by
/// what a read of the store under the settings' key says, or the key:
/// the key is looked at first, then the Slack notifier, then the limits.
pub open spec fn update_answer(
    settings: UserSettingsView,
    found: Result<Option<Seq<char>>, Seq<char>>,
) -> Result<Seq<char>, AccountErrorView> {
    match settings.api_key {
        None => Err(AccountErrorView::MissingApiKey),
        Some(key) => match found {
            Err(reason) => Err(AccountErrorView::Store(reason)),
            Ok(None) => Err(AccountErrorView::UnknownApiKey),
            Ok(Some(_)) => if find_first(settings.notifiers, is_slack_notifier()) is None {
                Err(AccountErrorView::MissingSlackNotifier)
            } else {
                match within_limits(settings) {
                    Err(e) => Err(AccountErrorView::Config(e)),
                    Ok(_) => Ok(key),
                }
            },
        },
    }
}

/// What stands in the way of changing the account of `settings` in a
/// store with `entries`, or the account's key.
pub open spec fn update_check(
    settings: UserSettingsView,
    entries: Map<Seq<char>, Seq<char>>,
) -> Result<Seq<char>, AccountErrorView> {
    match settings.api_key {
        None => Err(AccountErrorView::MissingApiKey),
        Some(key) => update_answer(settings, Ok(stored(entries, key))),
    }
}

/// The settings text of an account, by what a read of the store under
/// the account's key says; an account without settings is not found.
pub open spec fn settings_found(found: Result<Option<Seq<char>>, Seq<char>>) -> Result<
    Seq<char>,
    AccountErrorView,
> {
    match found {
        Ok(Some(text)) => Ok(text),
        Ok(None) => Err(AccountErrorView::NotFound),
        Err(reason) => Err(AccountErrorView::Store(reason)),
    }
}

/// What is to be written as the list once the account `api_key` is made,
/// by what the reads of the store under the key and of the list say. A
/// key under which the store holds something, or that the list names, is
/// refused.
pub open spec fn list_for_new_account(
    api_key: Seq<char>,
    held: Result<Option<Seq<char>>, Seq<char>>,
    list: Result<Option<Seq<char>>, Seq<char>>,
) -> Result<Seq<char>, AccountErrorView> {
    match held {
        Err(reason) => Err(AccountErrorView::Store(reason)),
        Ok(Some(_)) => Err(AccountErrorView::AlreadyRegistered(api_key)),
        Ok(None) => match list_with(list, api_key) {
            Ok(text) => Ok(text),
            Err(UserErrorView::AlreadyExists(key)) => Err(AccountErrorView::AlreadyRegistered(key)),
            Err(e) => Err(AccountErrorView::Store(user_error_text(e))),
        },
    }
}

/// An account's marker of the last run, by what the reads of the store
/// under the account's key and under the marker's key say. An account
/// without settings has no marker: it is not found.
pub open spec fn marker_of_account(
    held: Result<Option<Seq<char>>, Seq<char>>,
    marker: Result<Option<Seq<char>>, Seq<char>>,
) -> Result<Option<Timestamp>, AccountErrorView> {
    match settings_found(held) {
        Err(e) => Err(e),
        Ok(_) => match marker_read(marker) {
            Ok(at) => Ok(at),
            Err(UserErrorView::BadMarker(text)) => Err(AccountErrorView::BadMarker(text)),
            Err(e) => Err(AccountErrorView::Store(user_error_text(e))),
        },
    }
}

/// What the maker of a new account is told: an object with the account's
/// key.
pub open spec fn api_key_text(api_key: Seq<char>) -> Seq<char> {
    "{\"api_key\":"@ + json_quoted(api_key) + "}"@
}

/// What the maker of a new account is told.
pub fn api_key_response(api_key: &str) -> (text: String)
    ensures
        text@ == api_key_text(api_key@),
{
    let mut text = String::from_str("{\"api_key\":");
    text.append(json_quote(api_key).as_str());
    text.append("}");
    text
}

/// Why settings that carry the key `key` get no account, by what a read
/// of the store under that key gave.
pub fn key_refusal(key: &str, found: Result<Option<String>, StoreError>) -> (refusal: AccountError)
    ensures
        refusal@ == key_refused(key@, read_view(found)),
{
    match found {
        Ok(Some(_)) => AccountError::AlreadyRegistered(String::from_str(key)),
        Ok(None) => AccountError::InvalidApiKey(String::from_str(key)),
        Err(e) => AccountError::Store(e),
    }
}

/// The welcome that is to be delivered through the first Slack notifier
/// of the settings before an account is made for them.
pub fn welcome(settings: &UserSettings) -> (request: Result<Delivery, AccountError>)
    ensures
        result_view(request) == welcome_for(settings@.notifiers),
{
    let notifier = match settings.get_slack_notifier() {
        Some(notifier) => notifier,
        None => { return Err(AccountError::MissingSlackNotifier); },
    };
    let mut messages: Vec<String> = Vec::new();
    messages.push(String::from_str(WELCOME));
    proof {
        assert(messages.deep_view() =~= seq![WELCOME@]);
    }
    match notifier.notify(messages, false) {
        Ok(delivery) => Ok(delivery),
        Err(e) => Err(AccountError::InvalidSlackNotifier(e)),
    }
}

/// The first step of making an account: what stands in the way, or the
/// welcome that the caller has to deliver before the account is made.
/// Settings without a key do not ask the store; settings with a key are
/// refused, by what the store says of the key.
pub fn create_account_request<K: KvWrapper>(settings: &UserSettings, kv: &K) -> (request: Result<
    Delivery,
    AccountError,
>)
    ensures
        settings.api_key is None ==> result_view(request) == registration_check(
            settings@,
            kv.entries(),
        ),
        settings.api_key is Some ==> request is Err,
        request is Err && request->Err_0 is Store || result_view(request) == registration_check(
            settings@,
            kv.entries(),
        ),
{
    match &settings.api_key {
        Some(key) => Err(key_refusal(key.as_str(), kv.get_val(key.as_str()))),
        None => welcome(settings),
    }
}

/// The second step of making an account, once the welcome was delivered
/// or not and a key was drawn: the settings of the new account.
pub fn create_account(
    settings: UserSettings,
    delivered: Result<(), NotifyError>,
    api_key: String,
) -> (keyed: Result<UserSettings, AccountError>)
    ensures
        result_view(keyed) == registered_settings(settings@, result_view(delivered), api_key@),
{
    match delivered {
        Err(e) => Err(AccountError::InvalidSlackNotifier(e)),
        Ok(_) => {
            let keyed = UserSettings {
                channels: settings.channels,
                notifiers: settings.notifiers,
                api_key: Some(api_key),
                schedule: settings.schedule,
                path: settings.path,
            };
            match keyed.validate() {
                Err(e) => Err(AccountError::Config(e)),
                Ok(_) => Ok(keyed),
            }
        },
    }
}

/// `uuid::Uuid::new_v4` and its `Display`: a key drawn at random, of
/// which nothing is promised.
#[verifier::external_body]
pub(crate) fn new_api_key() -> (key: String) {
    uuid::Uuid::new_v4().to_string()
}

/// The second step of making an account, with a key that is drawn here:
/// where the welcome arrived, the settings get a new key.
pub fn register_user(settings: UserSettings, delivered: Result<(), NotifyError>) -> (keyed: Result<
    UserSettings,
    AccountError,
>)
    ensures
        exists|api_key: Seq<char>|
            result_view(keyed) == registered_settings(settings@, result_view(delivered), api_key),
{
    match delivered {
        Err(e) => {
            let keyed = Err(AccountError::InvalidSlackNotifier(e));
            proof {
                assert(result_view(keyed) == registered_settings(
                    settings@,
                    result_view(delivered),
                    Seq::empty(),
                ));
            }
            keyed
        },
        Ok(_) => {
            let api_key = new_api_key();
            let keyed = create_account(settings, Ok(()), api_key);
            proof {
                assert(result_view(keyed) == registered_settings(
                    settings@,
                    result_view(delivered),
                    api_key@,
                ));
            }
            keyed
        },
    }
}

/// What stands in the way of changing the account of `settings`, or the
/// account's key, by what a read of the store under that key gave.
pub fn update_account_answer(
    settings: &UserSettings,
    found: Result<Option<String>, StoreError>,
) -> (checked: Result<String, AccountError>)
    ensures
        result_view(checked) == update_answer(settings@, read_view(found)),
{
    let key = match &settings.api_key {
        Some(key) => key,
        None => { return Err(AccountError::MissingApiKey); },
    };
    match found {
        Err(e) => { return Err(AccountError::Store(e)); },
        Ok(None) => { return Err(AccountError::UnknownApiKey); },
        Ok(Some(_)) => {},
    }
    if settings.get_slack_notifier().is_none() {
        return Err(AccountError::MissingSlackNotifier);
    }
    match settings.validate() {
        Err(e) => Err(AccountError::Config(e)),
        Ok(_) => Ok(key.clone()),
    }
}

/// What stands in the way of changing the account of `settings`, or the
/// account's key. Settings without a key are refused without asking the
/// store.
pub fn update_account_request<K: KvWrapper>(settings: &UserSettings, kv: &K) -> (checked: Result<
    String,
    AccountError,
>)
    ensures
        settings.api_key is None ==> result_view(checked) == Err::<Seq<char>, _>(
            AccountErrorView::MissingApiKey,
        ),
        checked is Err && checked->Err_0 is Store || result_view(checked) == update_check(
            settings@,
            kv.entries(),
        ),
{
    match &settings.api_key {
        None => Err(AccountError::MissingApiKey),
        Some(key) => update_account_answer(settings, kv.get_val(key.as_str())),
    }
}

/// What a store with `entries` holds once the account `api_key` with the
/// settings text `settings` is made in it: the text under the key, and
/// the key at the end of the list of accounts.
pub open spec fn with_account(
    entries: Map<Seq<char>, Seq<char>>,
    api_key: Seq<char>,
    settings: Seq<char>,
) -> Map<Seq<char>, Seq<char>> {
    entries.insert(api_key, settings).insert(
        USER_IDS_KEY@,
        joined(listed_ids(stored(entries, USER_IDS_KEY@)).push(api_key), ","@),
    )
}

/// What a store with `entries` holds once the account `api_key` is
/// removed from it: neither its settings nor its marker of the last run,
/// and a list of accounts without its key.
pub open spec fn without_account(entries: Map<Seq<char>, Seq<char>>, api_key: Seq<char>) -> Map<
    Seq<char>,
    Seq<char>,
> {
    let cleared = entries.remove(api_key).remove(marker_key(api_key));
    match stored(cleared, USER_IDS_KEY@) {
        None => cleared,
        Some(list) => cleared.insert(
            USER_IDS_KEY@,
            joined(listed_ids(Some(list)).filter(other_than(api_key)), ","@),
        ),
    }
}

/// What is to be written as the list once the account `api_key` is
/// made, by what the reads of the store under the key and of the list
/// gave.
pub fn new_account_list(
    api_key: &str,
    held: Result<Option<String>, StoreError>,
    list: Result<Option<String>, StoreError>,
) -> (text: Result<String, AccountError>)
    ensures
        result_view(text) == list_for_new_account(api_key@, read_view(held), read_view(list)),
{
    match held {
        Err(e) => { return Err(AccountError::Store(e)); },
        Ok(Some(_)) => { return Err(AccountError::AlreadyRegistered(String::from_str(api_key))); },
        Ok(None) => {},
    }
    match User::list_with(&User::new(api_key), list) {
        Ok(text) => Ok(text),
        Err(UserError::AlreadyExists(key)) => Err(AccountError::AlreadyRegistered(key)),
        Err(other) => Err(AccountError::Store(StoreError { reason: other.message() })),
    }
}

/// The last step of making an account: the settings text goes under the
/// account's key, and the key onto the list of accounts. A key under
/// which the store holds something, or that the list names, is refused,
/// and the store stays as it was.
pub fn store_account<K: KvWrapper>(api_key: &str, settings: &str, kv: &mut K) -> (done: Result<
    (),
    AccountError,
>)
    ensures
        match done {
            Ok(_) => !old(kv).entries().contains_key(api_key@) && !listed_ids(
                stored(old(kv).entries(), USER_IDS_KEY@),
            ).contains(api_key@) && final(kv).entries() == with_account(
                old(kv).entries(),
                api_key@,
                settings@,
            ),
            Err(AccountError::AlreadyRegistered(key)) => key@ == api_key@ && (old(
                kv,
            ).entries().contains_key(api_key@) || listed_ids(
                stored(old(kv).entries(), USER_IDS_KEY@),
            ).contains(api_key@)) && final(kv).entries() == old(kv).entries(),
            Err(e) => e is Store,
        },
{
    let held = kv.get_val(api_key);
    let list = kv.get_val(USER_IDS_KEY);
    let text = match new_account_list(api_key, held, list) {
        Ok(text) => text,
        Err(e) => { return Err(e); },
    };
    match kv.put_val(api_key, settings) {
        Ok(_) => {},
        Err(e) => { return Err(AccountError::Store(e)); },
    }
    match kv.put_val(USER_IDS_KEY, text.as_str()) {
        Ok(_) => Ok(()),
        Err(e) => Err(AccountError::Store(e)),
    }
}

/// The last step of changing an account: the settings text goes under
/// the account's key, in place of what was there.
pub fn update_account<K: KvWrapper>(api_key: &str, settings: &str, kv: &mut K) -> (done: Result<
    (),
    AccountError,
>)
    ensures
        match done {
            Ok(_) => final(kv).entries() == old(kv).entries().insert(api_key@, settings@),
            Err(e) => e is Store,
        },
{
    match kv.put_val(api_key, settings) {
        Ok(_) => Ok(()),
        Err(e) => Err(AccountError::Store(e)),
    }
}

/// The settings text of an account, by what a read of the store under
/// the account's key gave.
pub fn account_found(found: Result<Option<String>, StoreError>) -> (text: Result<
    String,
    AccountError,
>)
    ensures
        result_view(text) == settings_found(read_view(found)),
{
    match found {
        Ok(Some(text)) => Ok(text),
        Ok(None) => Err(AccountError::NotFound),
        Err(e) => Err(AccountError::Store(e)),
    }
}

/// The settings text of the account `api_key`. An account of which the
/// store holds no settings is not found.
pub fn read_account<K: KvWrapper>(api_key: &str, kv: &K) -> (text: Result<String, AccountError>)
    ensures
        text is Err && text->Err_0 is Store || result_view(text) == settings_found(
            Ok(stored(kv.entries(), api_key@)),
        ),
{
    account_found(kv.get_val(api_key))
}

/// An account's marker of the last run, by what the reads of the store
/// under the account's key and under the marker's key gave.
pub fn account_marker(
    held: Result<Option<String>, StoreError>,
    marker: Result<Option<String>, StoreError>,
) -> (at: Result<Option<Timestamp>, AccountError>)
    ensures
        match at {
            Ok(found) => marker_of_account(read_view(held), read_view(marker)) == Ok::<
                _,
                AccountErrorView,
            >(found),
            Err(e) => marker_of_account(read_view(held), read_view(marker)) == Err::<
                Option<Timestamp>,
                _,
            >(e@),
        },
{
    match account_found(held) {
        Err(e) => { return Err(e); },
        Ok(_) => {},
    }
    match User::marker_read(marker) {
        Ok(at) => Ok(at),
        Err(UserError::BadMarker(text)) => Err(AccountError::BadMarker(text)),
        Err(other) => Err(AccountError::Store(StoreError { reason: other.message() })),
    }
}

/// The marker of the last run of the account `api_key`, if it has one:
/// the instant that the store holds for it, as it is. An account of
/// which the store holds no settings is not found, whatever marker the
/// store holds. The store is only read.
pub fn last_run_at<K: KvWrapper>(api_key: &str, kv: &K) -> (at: Result<
    Option<Timestamp>,
    AccountError,
>)
    ensures
        match at {
            Ok(found) => kv.entries().contains_key(api_key@) && found == marker_held(
                stored(kv.entries(), marker_key(api_key@)),
            ) && !is_bad_marker(stored(kv.entries(), marker_key(api_key@))),
            Err(AccountError::NotFound) => !kv.entries().contains_key(api_key@),
            Err(AccountError::BadMarker(text)) => kv.entries().contains_key(api_key@) && stored(
                kv.entries(),
                marker_key(api_key@),
            ) == Some(text@) && is_bad_marker(Some(text@)),
            Err(e) => e is Store,
        },
{
    let held = kv.get_val(api_key);
    let marker = kv.get_val(User::new(api_key).last_run_at_key().as_str());
    account_marker(held, marker)
}

/// Removes the account `api_key`: its settings, its marker of the last
/// run and its place on the list of accounts. A key under which the
/// store holds nothing is refused, and the store stays as it was.
pub fn delete_account<K: KvWrapper>(api_key: &str, kv: &mut K) -> (done: Result<(), AccountError>)
    ensures
        match done {
            Ok(_) => old(kv).entries().contains_key(api_key@) && final(kv).entries()
                == without_account(old(kv).entries(), api_key@),
            Err(e) => e is Store || (e is NotFound && !old(kv).entries().contains_key(api_key@)
                && final(kv).entries() == old(kv).entries()),
        },
{
    match account_found(kv.get_val(api_key)) {
        Err(e) => { return Err(e); },
        Ok(_) => {},
    }
    match kv.delete_val(api_key) {
        Ok(_) => {},
        Err(e) => { return Err(AccountError::Store(e)); },
    }
    let user = User::new(api_key);
    let marker = user.last_run_at_key();
    match kv.delete_val(marker.as_str()) {
        Ok(_) => {},
        Err(e) => { return Err(AccountError::Store(e)); },
    }
    match User::remove(&user, kv) {
        Ok(_) => Ok(()),
        Err(e) => Err(AccountError::Store(e)),
    }
}

/// Once an account is removed, the store holds neither its settings nor
/// its marker of the last run, and what it holds under other keys than
/// these two and the list of accounts is as before.
pub proof fn lemma_removed_account_is_purged(
    entries: Map<Seq<char>, Seq<char>>,
    api_key: Seq<char>,
)
    requires
        api_key != USER_IDS_KEY@,
    ensures
        !without_account(entries, api_key).contains_key(api_key),
        !without_account(entries, api_key).contains_key(marker_key(api_key)),
        forall|key: Seq<char>|
            key != api_key && key != marker_key(api_key) && key != USER_IDS_KEY@ ==> stored(
                without_account(entries, api_key),
                key,
            ) == stored(entries, key),
{
    reveal_strlit("last_run_at_");
    reveal_strlit("user_ids");
    assert(marker_key(api_key)[0] == 'l');
    assert(USER_IDS_KEY@[0] == 'u');
    assert(marker_key(api_key) != USER_IDS_KEY@);
}

/// Once an account is made, the store holds its settings under its
/// key, and the list names the accounts that it named before and then
/// the new one. This holds of every key that can stand on a list and is
/// not the key of the list itself.
pub proof fn lemma_made_account_is_kept(
    entries: Map<Seq<char>, Seq<char>>,
    api_key: Seq<char>,
    settings: Seq<char>,
)
    requires
        is_listable(api_key),
        api_key != USER_IDS_KEY@,
    ensures
        stored(with_account(entries, api_key, settings), api_key) == Some(settings),
        listed_ids(stored(with_account(entries, api_key, settings), USER_IDS_KEY@)) == listed_ids(
            stored(entries, USER_IDS_KEY@),
        ).push(api_key),
{
    lemma_saved_user_is_listed(entries, api_key);
}

/// What becomes of a request for an account for `settings` in a store
/// with `entries`, once the welcome was delivered or not and the key
/// `api_key` was drawn: the settings of the new account, or why there is
/// none. The welcome plays no part where the first step refuses.
pub open spec fn account_made(
    settings: UserSettingsView,
    entries: Map<Seq<char>, Seq<char>>,
    delivered: Result<(), NotifyErrorView>,
    api_key: Seq<char>,
) -> Result<UserSettingsView, AccountErrorView> {
    match registration_check(settings, entries) {
        Err(e) => Err(e),
        Ok(_) => registered_settings(settings, delivered, api_key),
    }
}

/// An account is made exactly where the settings carry no key and hold
/// a Slack notifier, the welcome arrived, and the settings are within
/// the limits; its settings are then the given ones with the new key.
/// Each refusal has its ground: a key that the store knows, a key that
/// it does not know, no Slack notifier, a welcome that did not arrive,
/// settings beyond the limits, in this order.
pub proof fn lemma_account_is_made_exactly_when(
    settings: UserSettingsView,
    entries: Map<Seq<char>, Seq<char>>,
    delivered: Result<(), NotifyErrorView>,
    api_key: Seq<char>,
)
    ensures
        account_made(settings, entries, delivered, api_key) is Ok <==> settings.api_key is None
            && find_first(settings.notifiers, is_slack_notifier()) is Some && delivered is Ok
            && within_limits(settings) is Ok,
        account_made(settings, entries, delivered, api_key) matches Ok(keyed) ==> keyed
            == (UserSettingsView { api_key: Some(api_key), ..settings }),
        settings.api_key matches Some(key) ==> account_made(settings, entries, delivered, api_key)
            == Err::<UserSettingsView, _>(
            if entries.contains_key(key) {
                AccountErrorView::AlreadyRegistered(key)
            } else {
                AccountErrorView::InvalidApiKey(key)
            },
        ),
        settings.api_key is None && find_first(settings.notifiers, is_slack_notifier()) is None
            ==> account_made(settings, entries, delivered, api_key) == Err::<UserSettingsView, _>(
            AccountErrorView::MissingSlackNotifier,
        ),
        settings.api_key is None && find_first(settings.notifiers, is_slack_notifier()) is Some
            ==> (delivered matches Err(e) ==> account_made(settings, entries, delivered, api_key)
            == Err::<UserSettingsView, _>(AccountErrorView::InvalidSlackNotifier(e))),
        settings.api_key is None && find_first(settings.notifiers, is_slack_notifier()) is Some
            && delivered is Ok ==> (within_limits(settings) matches Err(e) ==> account_made(
            settings,
            entries,
            delivered,
            api_key,
        ) == Err::<UserSettingsView, _>(AccountErrorView::Config(e))),
{
    lemma_first_where(settings.notifiers, is_slack_notifier());
    let keyed = UserSettingsView { api_key: Some(api_key), ..settings };
    assert(within_limits(keyed) == within_limits(settings));
}

/// A welcome that the webhook rejected is told word for word: the
/// sentence that reports the refusal ends with the webhook's answer.
pub proof fn lemma_rejection_is_told_word_for_word(body: Seq<char>)
    ensures
        ({
            let text = account_error_text(
                AccountErrorView::InvalidSlackNotifier(NotifyErrorView::Rejected(body)),
            );
            body.is_suffix_of(text)
        }),
{
    let text = account_error_text(
        AccountErrorView::InvalidSlackNotifier(NotifyErrorView::Rejected(body)),
    );
    assert(text.subrange(text.len() - body.len(), text.len() as int) =~= body);
}

} // verus!
