use cds_status::bookmarks::add_workflow_run_status;
use cds_status::entry::DisplayEntry;
use cds_status::menu::HeadlineSeverity;
use cds_status::model::{Bookmark, Broadcast, RunStatus};
use cds_status::standard::display_as_user;
use cds_status::tier::{Color, SeverityTier};

fn bookmark(key: &str, workflow_name: &str, kind: &str) -> Bookmark {
    Bookmark {
        key: key.to_string(),
        workflow_name: workflow_name.to_string(),
        kind: kind.to_string(),
    }
}

fn broadcast(id: i64, title: &str, level: &str, read: bool) -> Broadcast {
    Broadcast { id, title: title.to_string(), level: level.to_string(), read }
}

fn fetched(number: i64, sub_number: i64, status: &str) -> RunStatus {
    RunStatus::Fetched { number, sub_number, status: status.to_string() }
}

fn failed(code: u16, message: &str) -> RunStatus {
    RunStatus::Failed { code, message: message.to_string(), uuid: "f00d".to_string() }
}

fn title(label: &str) -> DisplayEntry {
    DisplayEntry::Title { label: label.to_string() }
}

fn item(label: &str, tier: SeverityTier, link: Option<&str>) -> DisplayEntry {
    DisplayEntry::Item { label: label.to_string(), tier, link: link.map(|l| l.to_string()) }
}

#[test]
fn one_warning_and_one_plain_announcement() {
    let broadcasts = vec![
        broadcast(1, "Plain news", "info", false),
        broadcast(2, "Careful", "warning", false),
    ];
    let menu = display_as_user("CDS", "http://ui", &broadcasts, &vec![], &vec![]);
    assert_eq!(menu.summary.label, "CDS 🔔2");
    assert_eq!(menu.summary.severity, Some(HeadlineSeverity::Tier(SeverityTier::Alert)));
    assert_eq!(menu.summary.color(), Some(Color::Red));
    assert_eq!(menu.summary.in_progress, 0);
    assert_eq!(
        menu.entries,
        vec![
            title("Broadcasts"),
            item("Plain news", SeverityTier::InProgress, Some("http://ui/broadcast/1")),
            item("Careful", SeverityTier::Alert, Some("http://ui/broadcast/2")),
            DisplayEntry::Separator,
        ]
    );
}

#[test]
fn the_warning_dominates_wherever_it_stands() {
    let first = vec![broadcast(1, "a", "warning", false), broadcast(2, "b", "info", false)];
    let last = vec![broadcast(2, "b", "info", false), broadcast(1, "a", "warning", false)];
    let alert = Some(HeadlineSeverity::Tier(SeverityTier::Alert));
    assert_eq!(display_as_user("n", "u", &first, &vec![], &vec![]).summary.severity, alert);
    assert_eq!(display_as_user("n", "u", &last, &vec![], &vec![]).summary.severity, alert);
}

#[test]
fn plain_announcements_alone_give_the_tier_of_information() {
    let broadcasts = vec![broadcast(1, "a", "info", false), broadcast(2, "b", "", false)];
    let menu = display_as_user("CDS", "u", &broadcasts, &vec![], &vec![]);
    assert_eq!(menu.summary.label, "CDS 🔔2");
    assert_eq!(menu.summary.severity, Some(HeadlineSeverity::Tier(SeverityTier::InProgress)));
    assert_eq!(menu.summary.color(), Some(Color::Blue));
}

#[test]
fn nothing_unread_shows_no_bell_and_no_announcements() {
    let menu = display_as_user("CDS", "u", &vec![], &vec![], &vec![]);
    assert_eq!(menu.summary.label, "CDS");
    assert_eq!(menu.summary.severity, None);
    assert_eq!(menu.summary.color(), None);
    assert_eq!(menu.summary.in_progress, 0);
    assert!(menu.entries.is_empty());
}

#[test]
fn announcements_that_were_read_are_left_out() {
    let broadcasts = vec![
        broadcast(1, "old warning", "warning", true),
        broadcast(2, "old news", "info", true),
    ];
    let menu = display_as_user("CDS", "u", &broadcasts, &vec![], &vec![]);
    assert_eq!(menu.summary.label, "CDS");
    assert_eq!(menu.summary.severity, None);
    assert!(menu.entries.is_empty());
}

#[test]
fn a_read_warning_does_not_raise_the_headline() {
    let broadcasts = vec![
        broadcast(1, "old warning", "warning", true),
        broadcast(2, "news", "info", false),
    ];
    let menu = display_as_user("CDS", "u", &broadcasts, &vec![], &vec![]);
    assert_eq!(menu.summary.label, "CDS 🔔1");
    assert_eq!(menu.summary.severity, Some(HeadlineSeverity::Tier(SeverityTier::InProgress)));
    assert_eq!(
        menu.entries,
        vec![
            title("Broadcasts"),
            item("news", SeverityTier::InProgress, Some("u/broadcast/2")),
            DisplayEntry::Separator,
        ]
    );
}

#[test]
fn announcements_come_first_then_the_bookmarks_in_their_order() {
    let broadcasts = vec![broadcast(5, "Heads up", "warning", false)];
    let bookmarks = vec![
        bookmark("ALPHA", "build", "workflow"),
        bookmark("ALPHA", "", "project"),
        bookmark("BETA", "deploy", "workflow"),
        bookmark("GAMMA", "nightly", "workflow"),
        bookmark("DELTA", "lint", "workflow"),
    ];
    let runs = vec![
        fetched(12, 3, "Building"),
        failed(404, "nothing"),
        failed(500, "boom"),
        fetched(2, 0, "Waiting"),
    ];
    let menu = display_as_user("prod", "https://cds.example", &broadcasts, &bookmarks, &runs);
    assert_eq!(menu.summary.label, "prod 🔔1 🚧2");
    assert_eq!(menu.summary.severity, Some(HeadlineSeverity::Tier(SeverityTier::Alert)));
    assert_eq!(menu.summary.in_progress, 2);
    assert_eq!(
        menu.entries,
        vec![
            title("Broadcasts"),
            item("Heads up", SeverityTier::Alert, Some("https://cds.example/broadcast/5")),
            DisplayEntry::Separator,
            title("Bookmarks"),
            item(
                "ALPHA/build #12.3",
                SeverityTier::InProgress,
                Some("https://cds.example/project/ALPHA/workflow/build/run/12"),
            ),
            item("BETA/deploy #0.0 never built", SeverityTier::Unknown, None),
            item(
                "GAMMA/nightly ERROR : status: 500, message: boom, uuid: f00d",
                SeverityTier::Alert,
                None,
            ),
            item(
                "DELTA/lint #2.0",
                SeverityTier::InProgress,
                Some("https://cds.example/project/DELTA/workflow/lint/run/2"),
            ),
        ]
    );
}

#[test]
fn runs_in_progress_are_marked_without_any_announcement() {
    let bookmarks = vec![bookmark("A", "w", "workflow")];
    let runs = vec![fetched(1, 0, "Checking")];
    let menu = display_as_user("CDS", "u", &vec![], &bookmarks, &runs);
    assert_eq!(menu.summary.label, "CDS 🚧1");
    assert_eq!(menu.summary.severity, None);
    assert_eq!(menu.summary.in_progress, 1);
    assert_eq!(
        menu.entries,
        vec![
            title("Bookmarks"),
            item("A/w #1.0", SeverityTier::InProgress, Some("u/project/A/workflow/w/run/1")),
        ]
    );
}

#[test]
fn bookmarks_of_other_kinds_get_the_title_and_no_line() {
    let bookmarks = vec![bookmark("A", "", "project"), bookmark("B", "", "application")];
    let menu = display_as_user("CDS", "u", &vec![], &bookmarks, &vec![]);
    assert_eq!(menu.summary.label, "CDS");
    assert_eq!(menu.entries, vec![title("Bookmarks")]);
}

#[test]
fn a_workflow_never_built_is_not_counted_as_in_progress() {
    let bookmarks = vec![bookmark("A", "w", "workflow")];
    let runs = vec![failed(404, "not found")];
    let menu = display_as_user("CDS", "u", &vec![], &bookmarks, &runs);
    assert_eq!(menu.summary.label, "CDS");
    assert_eq!(menu.summary.in_progress, 0);
    assert_eq!(
        menu.entries,
        vec![title("Bookmarks"), item("A/w #0.0 never built", SeverityTier::Unknown, None)]
    );
    assert_eq!(menu.entries[1].color(), Some(Color::Grey));
}

#[test]
fn in_progress_count_equals_the_lines_in_progress() {
    let statuses = ["Building", "Success", "Waiting", "Fail", "Checking", "Skipped", "Never Built"];
    let mut bookmarks = Vec::new();
    let mut runs = Vec::new();
    for (i, status) in statuses.iter().enumerate() {
        bookmarks.push(bookmark("P", &format!("w{}", i), "workflow"));
        runs.push(fetched(i as i64, 0, status));
    }
    bookmarks.push(bookmark("P", "gone", "workflow"));
    runs.push(failed(404, ""));
    bookmarks.push(bookmark("P", "broken", "workflow"));
    runs.push(failed(502, ""));
    let menu = display_as_user("CDS", "u", &vec![], &bookmarks, &runs);
    let shown = menu
        .entries
        .iter()
        .filter(|e| matches!(e, DisplayEntry::Item { tier: SeverityTier::InProgress, .. }))
        .count();
    assert_eq!(menu.summary.in_progress, 3);
    assert_eq!(shown, 3);
    assert_eq!(menu.summary.label, "CDS 🚧3");
    assert_eq!(menu.entries.len(), 1 + runs.len());
}

#[test]
fn all_runs_in_progress() {
    let bookmarks = vec![
        bookmark("P", "a", "workflow"),
        bookmark("P", "b", "workflow"),
        bookmark("P", "c", "workflow"),
    ];
    let runs = vec![fetched(1, 0, "Building"), fetched(2, 0, "Checking"), fetched(3, 0, "Waiting")];
    let menu = display_as_user("CDS", "u", &vec![], &bookmarks, &runs);
    assert_eq!(menu.summary.in_progress, 3);
    assert_eq!(menu.summary.label, "CDS 🚧3");
}

#[test]
fn many_unread_announcements_are_counted_in_decimal() {
    let mut broadcasts = Vec::new();
    for i in 0..12 {
        broadcasts.push(broadcast(i, "t", "info", false));
    }
    let menu = display_as_user("CDS", "u", &broadcasts, &vec![], &vec![]);
    assert_eq!(menu.summary.label, "CDS 🔔12");
    assert_eq!(menu.entries.len(), 14);
}

#[test]
fn workflow_lines_are_appended_to_what_is_there() {
    let bookmarks = vec![bookmark("A", "w", "workflow"), bookmark("B", "x", "other")];
    let runs = vec![fetched(3, 1, "Building")];
    let mut entries = vec![title("kept")];
    let in_progress = add_workflow_run_status("u", &bookmarks, &runs, &mut entries);
    assert_eq!(in_progress, 1);
    assert_eq!(
        entries,
        vec![
            title("kept"),
            item("A/w #3.1", SeverityTier::InProgress, Some("u/project/A/workflow/w/run/3")),
        ]
    );
}
