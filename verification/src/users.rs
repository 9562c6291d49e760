//! The accounts that a store knows, and each account's marker of its
//! last run.
//!
//! Each function that asks the store is the call and a function of what
//! the store answered (`User::listed`, `User::list_with`,
//! `User::list_without`, `User::marker_read`), which says exactly what
//! follows from each answer.

use crate::model::{lemma_filter_one, option_text, result_view};
use crate::store::{stored, KvWrapper, StoreError};
use crate::text::{
    is_nonempty, join, joined, lemma_parts_hold_no_separator, lemma_split_from_joint,
    lemma_split_of_one_part, same_text, split, split_on,
};
use crate::timestamp::{clock_now, instant_of_rfc3339, rfc3339_of_instant, Timestamp};
use vstd::prelude::*;
use vstd::string::StringExecFns;

verus! {

/// The key under which the store lists the accounts it knows: their
/// keys, with a comma between neighbours.
pub const USER_IDS_KEY: &'static str = "user_ids";

/// What begins the key of an account's marker of its last run.
pub const LAST_RUN_AT_PREFIX: &'static str = "last_run_at_";

/// An account that a store knows.
#[derive(Debug)]
pub struct User {
    pub api_key: String,
}

impl View for User {
    type V = Seq<char>;

    open spec fn view(&self) -> Seq<char> {
        self.api_key@
    }
}

impl DeepView for User {
    type V = Seq<char>;

    open spec fn deep_view(&self) -> Seq<char> {
        self.api_key@
    }
}

impl PartialEq for User {
    fn eq(&self, other: &Self) -> (same: bool) {
        self.api_key == other.api_key
    }
}

impl vstd::std_specs::cmp::PartialEqSpecImpl for User {
    open spec fn obeys_eq_spec() -> bool {
        true
    }

    open spec fn eq_spec(&self, other: &Self) -> bool {
        self.api_key@ == other.api_key@
    }
}

/// Why an account could not be listed, saved or marked.
#[derive(Debug)]
pub enum UserError {
    /// The store failed.
    Store(StoreError),
    /// The store knows an account with this key already.
    AlreadyExists(String),
    /// What the store holds as the marker is no date and time.
    BadMarker(String),
    /// The instant has no date and time.
    OutOfRange,
}

/// A failure as a mathematical value.
pub enum UserErrorView {
    Store(Seq<char>),
    AlreadyExists(Seq<char>),
    BadMarker(Seq<char>),
    OutOfRange,
}

impl View for UserError {
    type V = UserErrorView;

    open spec fn view(&self) -> UserErrorView {
        match self {
            UserError::Store(e) => UserErrorView::Store(e@),
            UserError::AlreadyExists(key) => UserErrorView::AlreadyExists(key@),
            UserError::BadMarker(text) => UserErrorView::BadMarker(text@),
            UserError::OutOfRange => UserErrorView::OutOfRange,
        }
    }
}

impl DeepView for UserError {
    type V = UserErrorView;

    open spec fn deep_view(&self) -> UserErrorView {
        self@
    }
}

/// The sentence that reports a failure.
pub open spec fn user_error_text(e: UserErrorView) -> Seq<char> {
    match e {
        UserErrorView::Store(reason) => reason,
        UserErrorView::AlreadyExists(key) => "Already exists user with API key: "@ + key,
        UserErrorView::BadMarker(text) => "Failed to parse last_run_at: "@ + text,
        UserErrorView::OutOfRange => "The time of the run has no date"@,
    }
}

impl UserError {
    /// The sentence that reports the failure.
    pub fn message(&self) -> (text: String)
        ensures
            text@ == user_error_text(self@),
    {
        match self {
            UserError::Store(e) => e.reason.clone(),
            UserError::AlreadyExists(key) => {
                let mut text = String::from_str("Already exists user with API key: ");
                text.append(key.as_str());
                text
            },
            UserError::BadMarker(found) => {
                let mut text = String::from_str("Failed to parse last_run_at: ");
                text.append(found.as_str());
                text
            },
            UserError::OutOfRange => String::from_str("The time of the run has no date"),
        }
    }
}

/// The keys that a list of accounts names: its parts between commas,
/// without the empty ones. A store without a list names none.
pub open spec fn listed_ids(list: Option<Seq<char>>) -> Seq<Seq<char>> {
    match list {
        Some(text) => split_on(text, ',').filter(is_nonempty()),
        None => Seq::empty(),
    }
}

/// The instant that a stored marker denotes, where the store holds one
/// that is a date and time.
pub open spec fn marker_held(held: Option<Seq<char>>) -> Option<Timestamp> {
    match held {
        Some(text) => instant_of_rfc3339(text),
        None => None,
    }
}

/// Whether the store holds a marker that is no date and time.
pub open spec fn is_bad_marker(held: Option<Seq<char>>) -> bool {
    match held {
        Some(text) => instant_of_rfc3339(text) is None,
        None => false,
    }
}

/// The test for being another text than `id`.
pub open spec fn other_than(id: Seq<char>) -> spec_fn(Seq<char>) -> bool {
    |x: Seq<char>| x != id
}

/// What a read of the list says of the accounts: the keys that the list
/// names, or the store's failure.
pub open spec fn users_listed(found: Result<Option<Seq<char>>, Seq<char>>) -> Result<
    Seq<Seq<char>>,
    Seq<char>,
> {
    match found {
        Ok(list) => Ok(listed_ids(list)),
        Err(reason) => Err(reason),
    }
}

/// What is to be written as the list once the account `user` is taken
/// off it, by what a read of the list says: nothing where the store has
/// no list, and else the keys that the list names without that of
/// `user`, with commas between them.
pub open spec fn list_without(found: Result<Option<Seq<char>>, Seq<char>>, user: Seq<char>) -> Result<
    Option<Seq<char>>,
    Seq<char>,
> {
    match found {
        Ok(Some(list)) => Ok(Some(joined(listed_ids(Some(list)).filter(other_than(user)), ","@))),
        Ok(None) => Ok(None),
        Err(reason) => Err(reason),
    }
}

/// What is to be written as the list once the account `user` is put on
/// it, by what a read of the list says: the keys that the list names and
/// then that of `user`, with commas between them. An account that the
/// list names already is refused.
pub open spec fn list_with(found: Result<Option<Seq<char>>, Seq<char>>, user: Seq<char>) -> Result<
    Seq<char>,
    UserErrorView,
> {
    match found {
        Err(reason) => Err(UserErrorView::Store(reason)),
        Ok(list) => if listed_ids(list).contains(user) {
            Err(UserErrorView::AlreadyExists(user))
        } else {
            Ok(joined(listed_ids(list).push(user), ","@))
        },
    }
}

/// What a read of an account's marker says: no marker where the store
/// holds none, the instant that the stored date and time denotes, or
/// that what is stored is no date and time.
pub open spec fn marker_read(found: Result<Option<Seq<char>>, Seq<char>>) -> Result<
    Option<Timestamp>,
    UserErrorView,
> {
    match found {
        Err(reason) => Err(UserErrorView::Store(reason)),
        Ok(None) => Ok(None),
        Ok(Some(text)) => match instant_of_rfc3339(text) {
            Some(at) => Ok(Some(at)),
            None => Err(UserErrorView::BadMarker(text)),
        },
    }
}

/// What a read of the store gave, as a mathematical value.
pub open spec fn read_view(found: Result<Option<String>, StoreError>) -> Result<
    Option<Seq<char>>,
    Seq<char>,
> {
    match found {
        Ok(value) => Ok(option_text(value)),
        Err(e) => Err(e@),
    }
}

/// The key of the marker of the account `api_key`.
pub open spec fn marker_key(api_key: Seq<char>) -> Seq<char> {
    LAST_RUN_AT_PREFIX@ + api_key
}

/// Whether `id` can stand on a list of accounts: it holds a character
/// and no comma.
pub open spec fn is_listable(id: Seq<char>) -> bool {
    id.len() > 0 && !id.contains(',')
}

/// Every key that a list names can stand on a list.
pub proof fn lemma_listed_ids_are_listable(list: Option<Seq<char>>)
    ensures
        forall|k: int|
            0 <= k < listed_ids(list).len() ==> is_listable(#[trigger] listed_ids(list)[k]),
{
    if let Some(text) = list {
        let parts = split_on(text, ',');
        let ids = listed_ids(list);
        lemma_parts_hold_no_separator(text, ',', 0);
        assert forall|k: int| 0 <= k < ids.len() implies is_listable(#[trigger] ids[k]) by {
            parts.lemma_filter_pred(is_nonempty(), k);
            parts.lemma_filter_contains_rev(is_nonempty(), ids[k]);
            let i = choose|i: int| 0 <= i < parts.len() && parts[i] == ids[k];
            assert(!parts[i].contains(','));
        }
    }
}

/// A list written from keys names those keys: what is joined with
/// commas comes apart again, key for key.
pub proof fn lemma_joined_ids_are_listed(ids: Seq<Seq<char>>)
    requires
        forall|k: int| 0 <= k < ids.len() ==> is_listable(#[trigger] ids[k]),
    ensures
        listed_ids(Some(joined(ids, ","@))) == ids,
    decreases ids.len(),
{
    reveal_strlit(",");
    let keep = is_nonempty();
    assert(","@ =~= seq![',']);
    if ids.len() == 0 {
        let nothing = Seq::<char>::empty();
        assert(!nothing.contains(','));
        lemma_split_of_one_part(nothing, ',');
        lemma_filter_one(nothing, keep);
        assert(ids =~= Seq::<Seq<char>>::empty());
    } else if ids.len() == 1 {
        assert(is_listable(ids[0]));
        lemma_split_of_one_part(ids[0], ',');
        lemma_filter_one(ids[0], keep);
        assert(ids =~= seq![ids[0]]);
    } else {
        let front = ids.drop_last();
        let last = ids.last();
        assert(is_listable(ids[ids.len() - 1]));
        assert forall|k: int| 0 <= k < front.len() implies is_listable(#[trigger] front[k]) by {
            assert(front[k] == ids[k]);
        }
        lemma_joined_ids_are_listed(front);
        let head = joined(front, ","@);
        assert(joined(ids, ","@) == head + seq![','] + last);
        lemma_split_from_joint(head, last, ',', 0);
        lemma_split_of_one_part(last, ',');
        lemma_filter_one(last, keep);
        Seq::filter_distributes_over_add(split_on(head, ','), seq![last], keep);
        assert(front + seq![last] =~= ids);
    }
}

/// An account that was saved is listed: once the list holds the keys
/// that it named before and then the new key, it names exactly these,
/// in this order.
pub proof fn lemma_saved_user_is_listed(entries: Map<Seq<char>, Seq<char>>, user: Seq<char>)
    requires
        is_listable(user),
    ensures
        ({
            let ids = listed_ids(stored(entries, USER_IDS_KEY@));
            let saved = entries.insert(USER_IDS_KEY@, joined(ids.push(user), ","@));
            listed_ids(stored(saved, USER_IDS_KEY@)) == ids.push(user)
        }),
{
    let ids = listed_ids(stored(entries, USER_IDS_KEY@));
    lemma_listed_ids_are_listable(stored(entries, USER_IDS_KEY@));
    lemma_joined_ids_are_listed(ids.push(user));
}

/// The parts of `text` between commas, without the empty ones.
pub fn ids_in(text: &str) -> (ids: Vec<String>)
    ensures
        ids.deep_view() == listed_ids(Some(text@)),
{
    let parts = split(text, ',');
    let ghost all = parts.deep_view();
    let ghost keep = is_nonempty();
    let mut ids: Vec<String> = Vec::new();
    let mut i: usize = 0;
    while i < parts.len()
        invariant
            i <= parts.len(),
            all == parts.deep_view(),
            keep == is_nonempty(),
            ids.deep_view() == all.take(i as int).filter(keep),
        decreases parts.len() - i,
    {
        proof {
            assert(all.take(i as int + 1) == all.take(i as int).push(all[i as int]));
            Seq::lemma_filter_push(all.take(i as int), all[i as int], keep);
        }
        let ghost before = ids.deep_view();
        if !parts[i].as_str().is_empty() {
            ids.push(parts[i].clone());
            proof {
                assert(ids.deep_view() =~= before.push(all[i as int]));
            }
        }
        i = i + 1;
    }
    proof {
        assert(all.take(all.len() as int) == all);
    }
    ids
}

/// Whether one of `ids` is `id`.
pub fn has_id(ids: &Vec<String>, id: &str) -> (found: bool)
    ensures
        found == ids.deep_view().contains(id@),
{
    let mut i: usize = 0;
    while i < ids.len()
        invariant
            i <= ids.len(),
            forall|k: int| 0 <= k < i ==> ids.deep_view()[k] != id@,
        decreases ids.len() - i,
    {
        if same_text(ids[i].as_str(), id) {
            assert(ids.deep_view()[i as int] == id@);
            return true;
        }
        i = i + 1;
    }
    false
}

impl User {
    /// The account with the key `api_key`.
    pub fn new(api_key: &str) -> (user: User)
        ensures
            user@ == api_key@,
    {
        User { api_key: String::from_str(api_key) }
    }

    /// The key of this account's marker of its last run.
    pub fn last_run_at_key(&self) -> (key: String)
        ensures
            key@ == marker_key(self@),
    {
        let mut key = String::from_str(LAST_RUN_AT_PREFIX);
        key.append(self.api_key.as_str());
        key
    }

    /// The accounts that a read of the list names, in the order of the
    /// list; a read that failed names none and hands its failure on.
    pub fn listed(found: Result<Option<String>, StoreError>) -> (users: Result<
        Vec<User>,
        StoreError,
    >)
        ensures
            result_view(users) == users_listed(read_view(found)),
    {
        let list = match found {
            Ok(list) => list,
            Err(e) => { return Err(e); },
        };
        let ghost named = listed_ids(option_text(list));
        let ids = match list {
            Some(text) => ids_in(text.as_str()),
            None => Vec::new(),
        };
        let ghost all = ids.deep_view();
        proof {
            assert(all =~= named);
        }
        let mut users: Vec<User> = Vec::new();
        let mut i: usize = 0;
        while i < ids.len()
            invariant
                i <= ids.len(),
                all == ids.deep_view(),
                all == named,
                users.len() == i,
                forall|k: int| 0 <= k < i ==> (#[trigger] users@[k])@ == all[k],
            decreases ids.len() - i,
        {
            users.push(User::new(ids[i].as_str()));
            i = i + 1;
        }
        proof {
            assert(users.deep_view() =~= all);
        }
        Ok(users)
    }

    /// The accounts that the store knows, in the order of its list.
    pub fn list<K: KvWrapper>(kv: &K) -> (users: Result<Vec<User>, StoreError>)
        ensures
            users matches Ok(found) ==> found.deep_view() == listed_ids(
                stored(kv.entries(), USER_IDS_KEY@),
            ),
    {
        User::listed(kv.get_val(USER_IDS_KEY))
    }

    /// What is to be written as the list once the account is put on it,
    /// by what a read of the list gave.
    pub fn list_with(user: &User, found: Result<Option<String>, StoreError>) -> (list: Result<
        String,
        UserError,
    >)
        ensures
            result_view(list) == list_with(read_view(found), user@),
    {
        let list = match found {
            Ok(list) => list,
            Err(e) => { return Err(UserError::Store(e)); },
        };
        let ghost named = listed_ids(option_text(list));
        let mut ids = match list {
            Some(text) => ids_in(text.as_str()),
            None => Vec::new(),
        };
        proof {
            assert(ids.deep_view() =~= named);
        }
        if has_id(&ids, user.api_key.as_str()) {
            return Err(UserError::AlreadyExists(user.api_key.clone()));
        }
        let ghost before = ids.deep_view();
        ids.push(user.api_key.clone());
        proof {
            assert(ids.deep_view() =~= before.push(user@));
        }
        Ok(join(&ids, ","))
    }

    /// Adds the account to the store's list. An account that the list
    /// names already is refused, and the store stays as it was.
    pub fn save<K: KvWrapper>(user: &User, kv: &mut K) -> (saved: Result<(), UserError>)
        ensures
            ({
                let ids = listed_ids(stored(old(kv).entries(), USER_IDS_KEY@));
                match saved {
                    Ok(_) => !ids.contains(user@) && final(kv).entries()
                        == old(kv).entries().insert(USER_IDS_KEY@, joined(ids.push(user@), ","@)),
                    Err(UserError::AlreadyExists(key)) => ids.contains(user@) && key@ == user@
                        && final(kv).entries() == old(kv).entries(),
                    Err(e) => e is Store,
                }
            }),
    {
        match User::list_with(user, kv.get_val(USER_IDS_KEY)) {
            Err(e) => Err(e),
            Ok(text) => match kv.put_val(USER_IDS_KEY, text.as_str()) {
                Ok(_) => Ok(()),
                Err(e) => Err(UserError::Store(e)),
            },
        }
    }

    /// What is to be written as the list once the account is taken off
    /// it, by what a read of the list gave.
    pub fn list_without(user: &User, found: Result<Option<String>, StoreError>) -> (list: Result<
        Option<String>,
        StoreError,
    >)
        ensures
            read_view(list) == list_without(read_view(found), user@),
    {
        let list = match found {
            Ok(Some(list)) => list,
            Ok(None) => { return Ok(None); },
            Err(e) => { return Err(e); },
        };
        let ids = ids_in(list.as_str());
        let ghost all = ids.deep_view();
        let ghost keep = other_than(user@);
        let mut kept: Vec<String> = Vec::new();
        let mut i: usize = 0;
        while i < ids.len()
            invariant
                i <= ids.len(),
                all == ids.deep_view(),
                keep == other_than(user@),
                kept.deep_view() == all.take(i as int).filter(keep),
            decreases ids.len() - i,
        {
            proof {
                assert(all.take(i as int + 1) == all.take(i as int).push(all[i as int]));
                Seq::lemma_filter_push(all.take(i as int), all[i as int], keep);
            }
            let ghost before = kept.deep_view();
            if !same_text(ids[i].as_str(), user.api_key.as_str()) {
                kept.push(ids[i].clone());
                proof {
                    assert(kept.deep_view() =~= before.push(all[i as int]));
                }
            }
            i = i + 1;
        }
        proof {
            assert(all.take(all.len() as int) == all);
        }
        Ok(Some(join(&kept, ",")))
    }

    /// Takes the account off the store's list. A store without a list
    /// stays as it was.
    pub fn remove<K: KvWrapper>(user: &User, kv: &mut K) -> (removed: Result<(), StoreError>)
        ensures
            removed is Ok ==> final(kv).entries() == match stored(
                old(kv).entries(),
                USER_IDS_KEY@,
            ) {
                None => old(kv).entries(),
                Some(list) => old(kv).entries().insert(
                    USER_IDS_KEY@,
                    joined(listed_ids(Some(list)).filter(other_than(user@)), ","@),
                ),
            },
    {
        match User::list_without(user, kv.get_val(USER_IDS_KEY)) {
            Ok(Some(text)) => kv.put_val(USER_IDS_KEY, text.as_str()),
            Ok(None) => Ok(()),
            Err(e) => Err(e),
        }
    }

    /// What a read of an account's marker gave: the marker, if the
    /// account has one.
    pub fn marker_read(found: Result<Option<String>, StoreError>) -> (marker: Result<
        Option<Timestamp>,
        UserError,
    >)
        ensures
            match marker {
                Ok(at) => marker_read(read_view(found)) == Ok::<_, UserErrorView>(at),
                Err(e) => marker_read(read_view(found)) == Err::<Option<Timestamp>, _>(e@),
            },
    {
        match found {
            Err(e) => Err(UserError::Store(e)),
            Ok(None) => Ok(None),
            Ok(Some(text)) => match Timestamp::from_rfc3339(text.as_str()) {
                Some(at) => Ok(Some(at)),
                None => Err(UserError::BadMarker(text)),
            },
        }
    }

    /// The account's marker of its last run, if it has one. A marker
    /// that is no date and time is reported with what the store holds.
    pub fn last_run_at<K: KvWrapper>(&self, kv: &K) -> (marker: Result<
        Option<Timestamp>,
        UserError,
    >)
        ensures
            match marker {
                Ok(found) => found == marker_held(stored(kv.entries(), marker_key(self@)))
                    && !is_bad_marker(stored(kv.entries(), marker_key(self@))),
                Err(UserError::BadMarker(text)) => stored(kv.entries(), marker_key(self@)) == Some(
                    text@,
                ) && is_bad_marker(Some(text@)),
                Err(e) => e is Store,
            },
    {
        let key = self.last_run_at_key();
        User::marker_read(kv.get_val(key.as_str()))
    }

    /// Moves the account's marker of its last run to the present time.
    /// The store then holds a date and time under the marker's key, or it
    /// is as it was.
    pub fn touch_last_run_at<K: KvWrapper>(&self, kv: &mut K) -> (done: Result<(), UserError>)
        ensures
            match done {
                Ok(_) => exists|text: Seq<char>|
                    final(kv).entries() == old(kv).entries().insert(marker_key(self@), text),
                Err(UserError::OutOfRange) => final(kv).entries() == old(kv).entries(),
                Err(e) => e is Store,
            },
    {
        let now = clock_now();
        let done = self.set_last_run_at(kv, now);
        proof {
            if done is Ok {
                let text = rfc3339_of_instant(now)->Some_0;
                assert(final(kv).entries() == old(kv).entries().insert(marker_key(self@), text));
            }
        }
        done
    }

    /// Moves the account's marker of its last run to `now`.
    pub fn set_last_run_at<K: KvWrapper>(&self, kv: &mut K, now: Timestamp) -> (done: Result<
        (),
        UserError,
    >)
        ensures
            match done {
                Ok(_) => rfc3339_of_instant(now) matches Some(text) && final(kv).entries()
                    == old(kv).entries().insert(marker_key(self@), text),
                Err(UserError::OutOfRange) => rfc3339_of_instant(now) is None
                    && final(kv).entries() == old(kv).entries(),
                Err(e) => e is Store && rfc3339_of_instant(now) is Some,
            },
    {
        let text = match now.to_rfc3339() {
            Some(text) => text,
            None => { return Err(UserError::OutOfRange); },
        };
        let key = self.last_run_at_key();
        match kv.put_val(key.as_str(), text.as_str()) {
            Ok(_) => Ok(()),
            Err(e) => Err(UserError::Store(e)),
        }
    }
}

} // verus!
