//! The choice between the two policies, made once from the role of the account.

use vstd::prelude::*;
use crate::admin::{admin_menu, display_as_admin};
use crate::bookmarks::{in_progress_lines_match_count, shows_in_progress, workflow_entries};
use crate::config::{display_name, display_name_of};
use crate::entry::EntryView;
use crate::fetch::{in_progress_count, select_workflows, workflows};
use crate::menu::{MenuView, StatusMenu};
use crate::model::{
    views, Bookmark, BookmarkView, Broadcast, BroadcastView, Component, ComponentView, RunStatus,
    RunView,
};
use crate::standard::{display_as_user, standard_menu};

verus! {

/// What was fetched for the account in one run. `runs` holds the run status
/// of each workflow bookmark, at the same position. What a policy does not
/// read may be left empty.
#[derive(Clone, Debug, PartialEq, Eq)]
pub struct Account {
    /// The name of the account as configured; may be empty.
    pub name: String,
    /// The address of the web interface.
    pub ui_url: String,
    pub broadcasts: Vec<Broadcast>,
    pub components: Vec<Component>,
    pub queue_depth: i64,
    pub bookmarks: Vec<Bookmark>,
    pub runs: Vec<RunStatus>,
}

/// An account as the views of what was fetched for it.
pub struct AccountView {
    pub name: Seq<char>,
    pub ui_url: Seq<char>,
    pub broadcasts: Seq<BroadcastView>,
    pub components: Seq<ComponentView>,
    pub queue_depth: int,
    pub bookmarks: Seq<BookmarkView>,
    pub runs: Seq<RunView>,
}

impl View for Account {
    type V = AccountView;

    open spec fn view(&self) -> AccountView {
        AccountView {
            name: self.name@,
            ui_url: self.ui_url@,
            broadcasts: views(self.broadcasts@),
            components: views(self.components@),
            queue_depth: self.queue_depth as int,
            bookmarks: views(self.bookmarks@),
            runs: views(self.runs@),
        }
    }
}

/// Whether the account holds one run status for each of its workflow bookmarks.
pub open spec fn complete(account: AccountView) -> bool {
    account.runs.len() == workflows(account.bookmarks).len()
}

/// What is shown for an account: the administrative policy for an
/// administrator, the standard one for anybody else.
pub open spec fn rendered(account: AccountView, is_admin: bool) -> MenuView {
    if is_admin {
        admin_menu(
            display_name_of(account.name),
            account.ui_url,
            account.components,
            account.queue_depth,
            account.bookmarks,
            account.runs,
        )
    } else {
        standard_menu(
            display_name_of(account.name),
            account.ui_url,
            account.broadcasts,
            account.bookmarks,
            account.runs,
        )
    }
}

impl Account {
    /// Whether this account holds one run status for each of its workflow bookmarks.
    pub fn is_complete(&self) -> (yes: bool)
        ensures
            yes == complete(self@),
    {
        self.runs.len() == select_workflows(&self.bookmarks).len()
    }
}

/// Reduces what was fetched for an account to the headline and the lines
/// below it, by the policy of the account's role.
pub fn render(account: &Account, is_admin: bool) -> (menu: StatusMenu)
    requires
        complete(account@),
    ensures
        menu@ == rendered(account@, is_admin),
{
    let name = display_name(account.name.as_str());
    if is_admin {
        display_as_admin(
            name.as_str(),
            account.ui_url.as_str(),
            &account.components,
            account.queue_depth,
            &account.bookmarks,
            &account.runs,
        )
    } else {
        display_as_user(
            name.as_str(),
            account.ui_url.as_str(),
            &account.broadcasts,
            &account.bookmarks,
            &account.runs,
        )
    }
}

/// Whatever the role, the number of runs in progress in the headline is the
/// number of run statuses that are classified as work in progress, which is
/// the number of bookmark lines shown as work in progress.
pub proof fn in_progress_is_counted_from_the_runs(account: AccountView, is_admin: bool)
    requires
        complete(account),
    ensures
        rendered(account, is_admin).summary.in_progress == in_progress_count(account.runs),
        rendered(account, is_admin).summary.in_progress == workflow_entries(
            account.ui_url,
            workflows(account.bookmarks),
            account.runs,
        ).filter(|e: EntryView| shows_in_progress(e)).len(),
{
    in_progress_lines_match_count(account.ui_url, workflows(account.bookmarks), account.runs);
}

} // verus!
