//! The administrative policy: the health of the system and the depth of the
//! pending queue, then the bookmarks.

use vstd::prelude::*;
use vstd::string::StringExecFns;
use crate::bookmarks::{add_bookmarks_section, bookmarks_section};
use crate::entry::{health_entry, DisplayEntry, EntryView};
use crate::fetch::{in_progress_count, workflows};
use crate::menu::{
    headline_color, in_progress_marker, push_in_progress_marker, HeadlineSeverity, MenuView,
    StatusMenu, Summary, SummaryView,
};
use crate::model::{views, Bookmark, BookmarkView, Component, ComponentView, RunStatus, RunView};
use crate::text::{push_signed_decimal, same_text, signed_decimal};
use crate::tier::{Color, SeverityTier};

verus! {

/// The queue depth above which the headline is a warning.
pub const QUEUE_WARNING: i64 = 50;

/// The queue depth above which the headline is an alert.
pub const QUEUE_ALERT: i64 = 100;

/// Whether a line of the system status reports the alarm of the system as a whole.
pub open spec fn is_global_alarm(component: ComponentView) -> bool {
    component.name == "Global/Status"@ && component.status == "AL"@
}

/// Whether any line of the system status reports the alarm of the system as a whole.
pub open spec fn global_alarm(components: Seq<ComponentView>) -> bool {
    exists|i: int| 0 <= i < components.len() && is_global_alarm(#[trigger] components[i])
}

/// The severity that the depth of the pending queue alone gives the headline.
pub open spec fn queue_severity(depth: int) -> HeadlineSeverity {
    if depth > QUEUE_ALERT {
        HeadlineSeverity::Tier(SeverityTier::Alert)
    } else if depth > QUEUE_WARNING {
        HeadlineSeverity::Warning
    } else {
        HeadlineSeverity::Tier(SeverityTier::Nominal)
    }
}

/// The place of a headline severity on the ladder of the queue depth.
pub open spec fn queue_rank(severity: HeadlineSeverity) -> nat {
    match severity {
        HeadlineSeverity::Tier(SeverityTier::Alert) => 2,
        HeadlineSeverity::Warning => 1,
        HeadlineSeverity::Tier(_) => 0,
    }
}

/// The severity of the administrative headline: the alarm wins, else the queue depth decides.
pub open spec fn admin_severity(alarm: bool, depth: int) -> HeadlineSeverity {
    if alarm {
        HeadlineSeverity::Tier(SeverityTier::Alert)
    } else {
        queue_severity(depth)
    }
}

/// The glyph after the name in the administrative headline: a cross under alarm, else a check.
pub open spec fn health_glyph(alarm: bool) -> Seq<char> {
    if alarm {
        " ✘"@
    } else {
        " \u{2714}\u{fe0e}"@
    }
}

/// The administrative headline.
pub open spec fn admin_summary(
    name: Seq<char>,
    components: Seq<ComponentView>,
    depth: int,
    runs: Seq<RunView>,
) -> SummaryView {
    SummaryView {
        label: name + health_glyph(global_alarm(components)) + " 🚀"@ + signed_decimal(depth)
            + in_progress_marker(in_progress_count(runs)),
        severity: Some(admin_severity(global_alarm(components), depth)),
        in_progress: in_progress_count(runs),
    }
}

/// The section on the health of the system: a title, the report, a separator.
pub open spec fn health_section(ui_url: Seq<char>, alarm: bool) -> Seq<EntryView> {
    seq![
        EntryView::Title { label: "CDS Status"@ },
        health_entry(ui_url, alarm),
        EntryView::Separator,
    ]
}

/// What the administrative policy shows.
pub open spec fn admin_menu(
    name: Seq<char>,
    ui_url: Seq<char>,
    components: Seq<ComponentView>,
    depth: int,
    bookmarks: Seq<BookmarkView>,
    runs: Seq<RunView>,
) -> MenuView {
    MenuView {
        summary: admin_summary(name, components, depth, runs),
        entries: health_section(ui_url, global_alarm(components)) + bookmarks_section(
            ui_url,
            bookmarks,
            runs,
        ),
    }
}

impl Component {
    /// Whether this line of the system status reports the alarm of the system as a whole.
    pub fn is_global_alarm(&self) -> (yes: bool)
        ensures
            yes == is_global_alarm(self@),
    {
        same_text(self.name.as_str(), "Global/Status") && same_text(self.status.as_str(), "AL")
    }
}

/// Whether any line of the system status reports the alarm of the system as
/// a whole. Every line is looked at.
pub fn detect_global_alarm(components: &Vec<Component>) -> (alarm: bool)
    ensures
        alarm == global_alarm(views(components@)),
{
    let mut alarm = false;
    let mut i: usize = 0;
    while i < components.len()
        invariant
            i <= components.len(),
            alarm == global_alarm(views(components@).take(i as int)),
        decreases components.len() - i,
    {
        let ghost next = views(components@).take(i + 1);
        let here = components[i].is_global_alarm();
        proof {
            assert(next[i as int] == components@[i as int]@);
        }
        if here {
            alarm = true;
        }
        i += 1;
    }
    proof {
        assert(views(components@).take(components.len() as int) =~= views(components@));
    }
    alarm
}

/// The severity that the depth of the pending queue alone gives the headline.
pub fn classify_queue_depth(depth: i64) -> (severity: HeadlineSeverity)
    ensures
        severity == queue_severity(depth as int),
{
    if depth > QUEUE_ALERT {
        HeadlineSeverity::Tier(SeverityTier::Alert)
    } else if depth > QUEUE_WARNING {
        HeadlineSeverity::Warning
    } else {
        HeadlineSeverity::Tier(SeverityTier::Nominal)
    }
}

/// The administrative policy: the headline is the account's name, a cross
/// under alarm or else a check, a rocket with the depth of the pending
/// queue, and a sign with the number of runs in progress where there are
/// any. Under alarm its severity is an alert whatever the queue; else the
/// queue depth decides. Below it stand the section on the health of the
/// system and the bookmarks section.
pub fn display_as_admin(
    name: &str,
    ui_url: &str,
    components: &Vec<Component>,
    queue_depth: i64,
    bookmarks: &Vec<Bookmark>,
    runs: &Vec<RunStatus>,
) -> (menu: StatusMenu)
    requires
        runs@.len() == workflows(views(bookmarks@)).len(),
    ensures
        menu@ == admin_menu(
            name@,
            ui_url@,
            views(components@),
            queue_depth as int,
            views(bookmarks@),
            views(runs@),
        ),
{
    let alarm = detect_global_alarm(components);
    let mut label = String::from_str(name);
    let severity = if alarm {
        label.append(" ✘");
        HeadlineSeverity::Tier(SeverityTier::Alert)
    } else {
        label.append(" \u{2714}\u{fe0e}");
        classify_queue_depth(queue_depth)
    };
    let mut entries: Vec<DisplayEntry> = Vec::new();
    entries.push(DisplayEntry::title("CDS Status"));
    entries.push(DisplayEntry::health(ui_url, alarm));
    entries.push(DisplayEntry::Separator);
    proof {
        assert(views(entries@) =~= health_section(ui_url@, alarm));
    }
    let in_progress = add_bookmarks_section(ui_url, bookmarks, runs, &mut entries);
    label.append(" 🚀");
    push_signed_decimal(&mut label, queue_depth);
    push_in_progress_marker(&mut label, in_progress);
    StatusMenu { summary: Summary { label, severity: Some(severity), in_progress }, entries }
}

/// An alarm on any line of the system status is an alarm of the whole:
/// where the line stands, and what stands before or after it, does not matter.
pub proof fn alarm_on_any_line(components: Seq<ComponentView>, i: int)
    requires
        0 <= i < components.len(),
        is_global_alarm(components[i]),
    ensures
        global_alarm(components),
{
}

/// Under alarm the headline is an alert and shows the cross, whatever the
/// depth of the pending queue.
pub proof fn alarm_overrides_queue_depth(
    name: Seq<char>,
    components: Seq<ComponentView>,
    depth: int,
    runs: Seq<RunView>,
)
    requires
        global_alarm(components),
    ensures
        admin_summary(name, components, depth, runs).severity == Some(
            HeadlineSeverity::Tier(SeverityTier::Alert),
        ),
        headline_color(admin_summary(name, components, depth, runs).severity) == Some(Color::Red),
        admin_summary(name, components, depth, runs).label == name + " ✘"@ + " 🚀"@
            + signed_decimal(depth) + in_progress_marker(in_progress_count(runs)),
{
}

/// Without alarm the depth of the pending queue decides the headline, by
/// two thresholds: up to fifty it is nominal, above fifty and up to a
/// hundred a warning, above a hundred an alert.
pub proof fn queue_depth_ladder(
    name: Seq<char>,
    components: Seq<ComponentView>,
    depth: int,
    runs: Seq<RunView>,
)
    requires
        !global_alarm(components),
    ensures
        depth <= 50 <==> admin_summary(name, components, depth, runs).severity == Some(
            HeadlineSeverity::Tier(SeverityTier::Nominal),
        ),
        50 < depth <= 100 <==> admin_summary(name, components, depth, runs).severity == Some(
            HeadlineSeverity::Warning,
        ),
        100 < depth <==> admin_summary(name, components, depth, runs).severity == Some(
            HeadlineSeverity::Tier(SeverityTier::Alert),
        ),
        headline_color(Some(HeadlineSeverity::Warning)) == Some(Color::Orange),
{
}

/// The severity of the queue depth never falls as the queue grows.
pub proof fn queue_severity_is_monotonic(shallow: int, deep: int)
    requires
        shallow <= deep,
    ensures
        queue_rank(queue_severity(shallow)) <= queue_rank(queue_severity(deep)),
{
}

} // verus!
