//! The settings of the tool: the statuses that can be set, by name, and the
//! accounts to set them for. Reading them from a file is the caller's part.

use vstd::prelude::*;
use vstd::string::*;
use crate::slack_api::SlackStatus;
use crate::text::same_text;

verus! {

/// A status and the name it goes by.
#[derive(Debug, Clone, PartialEq, Eq)]
pub struct NamedStatus {
    pub name: String,
    pub status: SlackStatus,
}

/// An account: its name and its credential, a token or the address of a
/// workspace.
#[derive(Debug, Clone, PartialEq, Eq)]
pub struct Account {
    pub name: String,
    pub token_or_url: String,
}

/// The settings: statuses and accounts, each in the order of the
/// configuration and each under a name of its own.
#[derive(Debug, Clone, PartialEq, Eq)]
pub struct AppSettings {
    pub status: Vec<NamedStatus>,
    pub accounts: Vec<Account>,
}

/// The names of a list of statuses, in order.
pub open spec fn status_names_of(status: Seq<NamedStatus>) -> Seq<Seq<char>> {
    status.map_values(|entry: NamedStatus| entry.name@)
}

/// The names of a list of accounts, in order.
pub open spec fn account_names_of(accounts: Seq<Account>) -> Seq<Seq<char>> {
    accounts.map_values(|entry: Account| entry.name@)
}

/// The texts of a list of names.
pub open spec fn texts_of(names: Seq<String>) -> Seq<Seq<char>> {
    names.map_values(|name: String| name@)
}

fn status_name_list(status: &Vec<NamedStatus>) -> (names: Vec<String>)
    ensures
        texts_of(names@) == status_names_of(status@),
{
    let mut names: Vec<String> = Vec::new();
    let mut i: usize = 0;
    while i < status.len()
        invariant
            i <= status.len(),
            names.len() == i,
            forall|k: int| 0 <= k < i ==> names[k]@ == status[k].name@,
        decreases status.len() - i,
    {
        names.push(status[i].name.clone());
        i += 1;
    }
    assert(texts_of(names@) =~= status_names_of(status@));
    names
}

fn account_name_list(accounts: &Vec<Account>) -> (names: Vec<String>)
    ensures
        texts_of(names@) == account_names_of(accounts@),
{
    let mut names: Vec<String> = Vec::new();
    let mut i: usize = 0;
    while i < accounts.len()
        invariant
            i <= accounts.len(),
            names.len() == i,
            forall|k: int| 0 <= k < i ==> names[k]@ == accounts[k].name@,
        decreases accounts.len() - i,
    {
        names.push(accounts[i].name.clone());
        i += 1;
    }
    assert(texts_of(names@) =~= account_names_of(accounts@));
    names
}

/// Whether no name stands twice in a list.
pub fn names_distinct(names: &Vec<String>) -> (distinct: bool)
    ensures
        distinct == texts_of(names@).no_duplicates(),
{
    let ghost texts = texts_of(names@);
    let mut i: usize = 0;
    while i < names.len()
        invariant
            i <= names.len(),
            texts == texts_of(names@),
            forall|a: int, b: int| 0 <= a < i && 0 <= b < i && a != b ==> texts[a] != texts[b],
        decreases names.len() - i,
    {
        let mut j: usize = 0;
        while j < i
            invariant
                j <= i,
                i < names.len(),
                texts == texts_of(names@),
                forall|b: int| 0 <= b < j ==> texts[b] != texts[i as int],
            decreases i - j,
        {
            if same_text(names[j].as_str(), names[i].as_str()) {
                assert(texts[j as int] == texts[i as int]);
                return false;
            }
            j += 1;
        }
        i += 1;
    }
    true
}

impl AppSettings {
    /// The names of the statuses, in order.
    pub open spec fn status_names(&self) -> Seq<Seq<char>> {
        status_names_of(self.status@)
    }

    /// The names of the accounts, in order.
    pub open spec fn account_names(&self) -> Seq<Seq<char>> {
        account_names_of(self.accounts@)
    }

    /// Settings are well formed when no two statuses share a name and no two
    /// accounts do.
    pub open spec fn well_formed(&self) -> bool {
        self.status_names().no_duplicates() && self.account_names().no_duplicates()
    }

    /// Puts settings together. `None` where two statuses or two accounts
    /// share a name.
    pub fn new(status: Vec<NamedStatus>, accounts: Vec<Account>) -> (settings: Option<AppSettings>)
        ensures
            match settings {
                Some(settings) => settings.status == status && settings.accounts == accounts
                    && settings.well_formed(),
                None => !(status_names_of(status@).no_duplicates() && account_names_of(
                    accounts@,
                ).no_duplicates()),
            },
    {
        let status_names = status_name_list(&status);
        let account_names = account_name_list(&accounts);
        if names_distinct(&status_names) && names_distinct(&account_names) {
            Some(AppSettings { status, accounts })
        } else {
            None
        }
    }

    /// Looks a status up by its name: the first of that name, `None` where
    /// there is none.
    pub fn find_status(&self, name: &str) -> (found: Option<&SlackStatus>)
        ensures
            match found {
                Some(status) => exists|i: int|
                    0 <= i < self.status.len() && self.status_names()[i] == name@
                        && self.status[i].status == *status && forall|j: int|
                        0 <= j < i ==> self.status_names()[j] != name@,
                None => !self.status_names().contains(name@),
            },
    {
        let mut i: usize = 0;
        while i < self.status.len()
            invariant
                i <= self.status.len(),
                forall|j: int| 0 <= j < i ==> self.status_names()[j] != name@,
            decreases self.status.len() - i,
        {
            if same_text(self.status[i].name.as_str(), name) {
                assert(self.status_names()[i as int] == name@);
                return Some(&self.status[i].status);
            }
            i += 1;
        }
        None
    }

    /// Lists the names of the statuses, in order.
    pub fn list_status_names(&self) -> (names: Vec<String>)
        ensures
            texts_of(names@) == self.status_names(),
    {
        status_name_list(&self.status)
    }

    /// The account that a status is read from: the first one.
    pub fn first_account(&self) -> (account: Option<&Account>)
        ensures
            match account {
                Some(account) => self.accounts.len() > 0 && *account == self.accounts[0],
                None => self.accounts.len() == 0,
            },
    {
        if self.accounts.len() > 0 {
            Some(&self.accounts[0])
        } else {
            None
        }
    }
}

} // verus!
