//! The lines of the status display: what one line holds, and how the line
//! of a bookmark, of an announcement and of the system's health is made.

use vstd::prelude::*;
use vstd::string::StringExecFns;
use crate::fetch::{in_progress, run_tier};
use crate::model::{Bookmark, BookmarkView, Broadcast, BroadcastView, RunStatus, RunView};
use crate::text::{decimal, is_digit, push_signed_decimal, same_text, signed_decimal};
use crate::tier::{tier_color, Color, SeverityTier, NOT_FOUND};

verus! {

/// One line of the display below the headline.
#[derive(Clone, Debug, PartialEq, Eq)]
pub enum DisplayEntry {
    /// A rule between two sections.
    Separator,
    /// The title of a section.
    Title { label: String },
    /// A bookmark, an announcement or a health report: its label, its tier,
    /// and the page it leads to, if any.
    Item { label: String, tier: SeverityTier, link: Option<String> },
}

/// A line of the display, with its texts as sequences of characters.
pub enum EntryView {
    Separator,
    Title { label: Seq<char> },
    Item { label: Seq<char>, tier: SeverityTier, link: Option<Seq<char>> },
}

/// The view of an optional text.
pub open spec fn text_view(text: Option<String>) -> Option<Seq<char>> {
    match text {
        Some(t) => Some(t@),
        None => None,
    }
}

impl View for DisplayEntry {
    type V = EntryView;

    open spec fn view(&self) -> EntryView {
        match self {
            DisplayEntry::Separator => EntryView::Separator,
            DisplayEntry::Title { label } => EntryView::Title { label: label@ },
            DisplayEntry::Item { label, tier, link } => EntryView::Item {
                label: label@,
                tier: *tier,
                link: text_view(*link),
            },
        }
    }
}

/// The colour of a line: titles have their own, an item has that of its
/// tier, a separator has none.
pub open spec fn entry_color(entry: EntryView) -> Option<Color> {
    match entry {
        EntryView::Separator => None,
        EntryView::Title { .. } => Some(Color::LightGrey),
        EntryView::Item { tier, .. } => Some(tier_color(tier)),
    }
}

/// The name under which a bookmark is shown: project key, a slash, workflow name.
pub open spec fn bookmark_name(bookmark: BookmarkView) -> Seq<char> {
    bookmark.key + "/"@ + bookmark.workflow_name
}

/// The words in which the remote service's client describes a failure: the
/// status where there is one, the message, and the identifier.
pub open spec fn failure_words(code: u16, message: Seq<char>, uuid: Seq<char>) -> Seq<char> {
    if code == 0 {
        "message: "@ + message + ", uuid: "@ + uuid
    } else {
        "status: "@ + decimal(code as nat) + ", message: "@ + message + ", uuid: "@ + uuid
    }
}

/// The label of a bookmark's line: its name, then the run and sub-run
/// numbers, or the words for a workflow never built, or the failure.
pub open spec fn run_label(bookmark: BookmarkView, run: RunView) -> Seq<char> {
    match run {
        RunView::Fetched { number, sub_number, .. } => bookmark_name(bookmark) + " #"@
            + signed_decimal(number) + "."@ + signed_decimal(sub_number),
        RunView::Failed { code, message, uuid } => if code == NOT_FOUND {
            bookmark_name(bookmark) + " #0.0 never built"@
        } else {
            bookmark_name(bookmark) + " ERROR : "@ + failure_words(code, message, uuid)
        },
    }
}

/// The page of a run: only a run that was fetched has one.
pub open spec fn run_link(ui_url: Seq<char>, bookmark: BookmarkView, run: RunView) -> Option<
    Seq<char>,
> {
    match run {
        RunView::Fetched { number, .. } => Some(
            ui_url + "/project/"@ + bookmark.key + "/workflow/"@ + bookmark.workflow_name
                + "/run/"@ + signed_decimal(number),
        ),
        RunView::Failed { .. } => None,
    }
}

/// The line of a workflow bookmark, given what fetching its latest run gave.
pub open spec fn workflow_entry(
    ui_url: Seq<char>,
    bookmark: BookmarkView,
    run: RunView,
) -> EntryView {
    EntryView::Item {
        label: run_label(bookmark, run),
        tier: run_tier(run),
        link: run_link(ui_url, bookmark, run),
    }
}

/// Whether an announcement is of the level that raises an alert.
pub open spec fn is_warning(broadcast: BroadcastView) -> bool {
    broadcast.level == "warning"@
}

/// The tier of an announcement: an alert for a warning, else the tier of plain information.
pub open spec fn broadcast_tier(broadcast: BroadcastView) -> SeverityTier {
    if is_warning(broadcast) {
        SeverityTier::Alert
    } else {
        SeverityTier::InProgress
    }
}

/// The line of an announcement: its title, the tier of its level, and its page.
pub open spec fn broadcast_entry(ui_url: Seq<char>, broadcast: BroadcastView) -> EntryView {
    EntryView::Item {
        label: broadcast.title,
        tier: broadcast_tier(broadcast),
        link: Some(ui_url + "/broadcast/"@ + signed_decimal(broadcast.id)),
    }
}

/// The line that reports the health of the system as a whole.
pub open spec fn health_entry(ui_url: Seq<char>, alarm: bool) -> EntryView {
    EntryView::Item {
        label: if alarm {
            "Global/Status Alarm"@
        } else {
            "Global/Status OK"@
        },
        tier: if alarm {
            SeverityTier::Alert
        } else {
            SeverityTier::Nominal
        },
        link: Some(ui_url + "/admin/services"@),
    }
}

/// The `Debug` text of `sdk_cds::error::Error`, which that crate writes by
/// hand: "message: M, uuid: U" where the status is zero, else
/// "status: S, message: M, uuid: U" with the status in decimal.
#[verifier::external_body]
fn describe_failure(code: u16, message: &str, uuid: &str) -> (words: String)
    ensures
        words@ == failure_words(code, message@, uuid@),
{
    let error = sdk_cds::error::Error {
        status: code,
        message: message.to_string(),
        uuid: uuid.to_string(),
    };
    format!("{:?}", error)
}

impl DisplayEntry {
    /// The title of a section.
    pub fn title(label: &str) -> (entry: DisplayEntry)
        ensures
            entry@ == (EntryView::Title { label: label@ }),
    {
        DisplayEntry::Title { label: String::from_str(label) }
    }

    /// The colour of this line, if it has one.
    pub fn color(&self) -> (color: Option<Color>)
        ensures
            color == entry_color(self@),
    {
        match self {
            DisplayEntry::Separator => None,
            DisplayEntry::Title { .. } => Some(Color::LightGrey),
            DisplayEntry::Item { tier, .. } => Some(tier.color()),
        }
    }

    /// The line of a workflow bookmark, given what fetching its latest run gave.
    pub fn workflow(ui_url: &str, bookmark: &Bookmark, run: &RunStatus) -> (entry: DisplayEntry)
        ensures
            entry@ == workflow_entry(ui_url@, bookmark@, run@),
    {
        let mut label = String::from_str(bookmark.key.as_str());
        label.append("/");
        label.append(bookmark.workflow_name.as_str());
        match run {
            RunStatus::Fetched { number, sub_number, .. } => {
                label.append(" #");
                push_signed_decimal(&mut label, *number);
                label.append(".");
                push_signed_decimal(&mut label, *sub_number);
                let mut link = String::from_str(ui_url);
                link.append("/project/");
                link.append(bookmark.key.as_str());
                link.append("/workflow/");
                link.append(bookmark.workflow_name.as_str());
                link.append("/run/");
                push_signed_decimal(&mut link, *number);
                DisplayEntry::Item { label, tier: run.tier(), link: Some(link) }
            },
            RunStatus::Failed { code, message, uuid } => {
                if *code == NOT_FOUND {
                    label.append(" #0.0 never built");
                } else {
                    label.append(" ERROR : ");
                    let words = describe_failure(*code, message.as_str(), uuid.as_str());
                    label.append(words.as_str());
                }
                DisplayEntry::Item { label, tier: run.tier(), link: None }
            },
        }
    }

    /// The line of an announcement.
    pub fn broadcast(ui_url: &str, broadcast: &Broadcast) -> (entry: DisplayEntry)
        ensures
            entry@ == broadcast_entry(ui_url@, broadcast@),
    {
        let mut link = String::from_str(ui_url);
        link.append("/broadcast/");
        push_signed_decimal(&mut link, broadcast.id);
        DisplayEntry::Item {
            label: broadcast.title.clone(),
            tier: broadcast.tier(),
            link: Some(link),
        }
    }

    /// The line that reports the health of the system as a whole.
    pub fn health(ui_url: &str, alarm: bool) -> (entry: DisplayEntry)
        ensures
            entry@ == health_entry(ui_url@, alarm),
    {
        let mut link = String::from_str(ui_url);
        link.append("/admin/services");
        if alarm {
            DisplayEntry::Item {
                label: String::from_str("Global/Status Alarm"),
                tier: SeverityTier::Alert,
                link: Some(link),
            }
        } else {
            DisplayEntry::Item {
                label: String::from_str("Global/Status OK"),
                tier: SeverityTier::Nominal,
                link: Some(link),
            }
        }
    }
}

impl Broadcast {
    /// Whether this announcement is of the level that raises an alert.
    pub fn is_warning(&self) -> (yes: bool)
        ensures
            yes == is_warning(self@),
    {
        same_text(self.level.as_str(), "warning")
    }

    /// The tier of this announcement.
    pub fn tier(&self) -> (tier: SeverityTier)
        ensures
            tier == broadcast_tier(self@),
    {
        if self.is_warning() {
            SeverityTier::Alert
        } else {
            SeverityTier::InProgress
        }
    }
}

/// A workflow that was never built has a line of its own: the words "never
/// built" after the name, the unknown tier, no link. It is not shown in the
/// colour of an alert, it does not count as work in progress, and its label
/// is not the label of the same bookmark under any other run status.
pub proof fn never_built_stands_apart(
    ui_url: Seq<char>,
    bookmark: BookmarkView,
    message: Seq<char>,
    uuid: Seq<char>,
    other: RunView,
)
    ensures
        workflow_entry(ui_url, bookmark, RunView::Failed { code: NOT_FOUND, message, uuid }) == (
        EntryView::Item {
            label: bookmark_name(bookmark) + " #0.0 never built"@,
            tier: SeverityTier::Unknown,
            link: None,
        }),
        entry_color(
            workflow_entry(ui_url, bookmark, RunView::Failed { code: NOT_FOUND, message, uuid }),
        ) == Some(Color::Grey),
        !in_progress(RunView::Failed { code: NOT_FOUND, message, uuid }),
        !(other matches RunView::Failed { code, .. } && code == NOT_FOUND) ==> run_label(
            bookmark,
            other,
        ) != run_label(bookmark, RunView::Failed { code: NOT_FOUND, message, uuid }),
{
    let name = bookmark_name(bookmark);
    reveal_strlit(" #0.0 never built");
    reveal_strlit(" ERROR : ");
    match other {
        RunView::Fetched { .. } => {
            // The label of a run ends with a digit, that of a workflow never built with a letter.
            assert(is_digit(run_label(bookmark, other).last()));
        },
        RunView::Failed { code, .. } => {
            if code != NOT_FOUND {
                // After the name and a blank, a failure goes on with "E", never built with "#".
                assert(run_label(bookmark, other)[name.len() as int + 1] == 'E');
            }
        },
    }
}

/// A failure other than "not found" is an alert: its line says so after the
/// name, with the words that describe the failure, and has no link.
pub proof fn failure_is_an_alert(
    ui_url: Seq<char>,
    bookmark: BookmarkView,
    code: u16,
    message: Seq<char>,
    uuid: Seq<char>,
)
    requires
        code != NOT_FOUND,
    ensures
        workflow_entry(ui_url, bookmark, RunView::Failed { code, message, uuid }) == (
        EntryView::Item {
            label: bookmark_name(bookmark) + " ERROR : "@ + failure_words(code, message, uuid),
            tier: SeverityTier::Alert,
            link: None,
        }),
        entry_color(workflow_entry(ui_url, bookmark, RunView::Failed { code, message, uuid }))
            == Some(Color::Red),
{
}

} // verus!
