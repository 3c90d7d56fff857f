use cds_status::admin::{classify_queue_depth, detect_global_alarm, display_as_admin};
use cds_status::entry::DisplayEntry;
use cds_status::menu::HeadlineSeverity;
use cds_status::model::{Bookmark, Component, RunStatus};
use cds_status::tier::{Color, SeverityTier};

fn component(name: &str, status: &str) -> Component {
    Component { name: name.to_string(), status: status.to_string() }
}

fn title(label: &str) -> DisplayEntry {
    DisplayEntry::Title { label: label.to_string() }
}

fn item(label: &str, tier: SeverityTier, link: Option<&str>) -> DisplayEntry {
    DisplayEntry::Item { label: label.to_string(), tier, link: link.map(|l| l.to_string()) }
}

fn severity_at(depth: i64) -> Option<HeadlineSeverity> {
    let components = vec![component("Global/Status", "OK")];
    display_as_admin("CDS", "u", &components, depth, &vec![], &vec![]).summary.severity
}

const NOMINAL: Option<HeadlineSeverity> = Some(HeadlineSeverity::Tier(SeverityTier::Nominal));
const WARNING: Option<HeadlineSeverity> = Some(HeadlineSeverity::Warning);
const ALERT: Option<HeadlineSeverity> = Some(HeadlineSeverity::Tier(SeverityTier::Alert));

#[test]
fn alarm_gives_an_alert_even_with_an_empty_queue() {
    let components = vec![component("Global/Status", "AL")];
    let menu = display_as_admin("CDS", "http://ui", &components, 0, &vec![], &vec![]);
    assert_eq!(menu.summary.severity, ALERT);
    assert_eq!(menu.summary.color(), Some(Color::Red));
    assert_eq!(menu.summary.label, "CDS ✘ 🚀0");
    assert_eq!(
        menu.entries,
        vec![
            title("CDS Status"),
            item("Global/Status Alarm", SeverityTier::Alert, Some("http://ui/admin/services")),
            DisplayEntry::Separator,
        ]
    );
}

#[test]
fn alarm_wins_over_every_queue_depth() {
    let components = vec![component("Global/Status", "AL")];
    for depth in [0, 50, 51, 100, 101, 100000, -5] {
        let menu = display_as_admin("CDS", "u", &components, depth, &vec![], &vec![]);
        assert_eq!(menu.summary.severity, ALERT);
    }
}

#[test]
fn queue_depth_decides_without_alarm() {
    assert_eq!(severity_at(0), NOMINAL);
    assert_eq!(severity_at(51), WARNING);
    assert_eq!(severity_at(101), ALERT);
}

#[test]
fn queue_depth_at_the_thresholds() {
    assert_eq!(severity_at(49), NOMINAL);
    assert_eq!(severity_at(50), NOMINAL);
    assert_eq!(severity_at(51), WARNING);
    assert_eq!(severity_at(99), WARNING);
    assert_eq!(severity_at(100), WARNING);
    assert_eq!(severity_at(101), ALERT);
    assert_eq!(severity_at(i64::MAX), ALERT);
    assert_eq!(severity_at(-1), NOMINAL);
    assert_eq!(severity_at(i64::MIN), NOMINAL);
}

#[test]
fn queue_depth_severity_alone() {
    assert_eq!(classify_queue_depth(50), HeadlineSeverity::Tier(SeverityTier::Nominal));
    assert_eq!(classify_queue_depth(51), HeadlineSeverity::Warning);
    assert_eq!(classify_queue_depth(100), HeadlineSeverity::Warning);
    assert_eq!(classify_queue_depth(101), HeadlineSeverity::Tier(SeverityTier::Alert));
}

#[test]
fn each_headline_severity_has_its_colour() {
    assert_eq!(HeadlineSeverity::Tier(SeverityTier::Nominal).color(), Color::Green);
    assert_eq!(HeadlineSeverity::Warning.color(), Color::Orange);
    assert_eq!(HeadlineSeverity::Tier(SeverityTier::Alert).color(), Color::Red);
    assert_eq!(HeadlineSeverity::Tier(SeverityTier::InProgress).color(), Color::Blue);
}

#[test]
fn healthy_headline_shows_the_check_and_the_queue() {
    let components = vec![component("Global/Status", "OK"), component("Global/Version", "AL")];
    let menu = display_as_admin("CDS", "http://ui", &components, 7, &vec![], &vec![]);
    assert_eq!(menu.summary.label, "CDS \u{2714}\u{fe0e} 🚀7");
    assert_eq!(menu.summary.severity, NOMINAL);
    assert_eq!(menu.summary.color(), Some(Color::Green));
    assert_eq!(
        menu.entries,
        vec![
            title("CDS Status"),
            item("Global/Status OK", SeverityTier::Nominal, Some("http://ui/admin/services")),
            DisplayEntry::Separator,
        ]
    );
}

#[test]
fn warning_headline_is_orange() {
    let menu = display_as_admin("CDS", "u", &vec![], 75, &vec![], &vec![]);
    assert_eq!(menu.summary.label, "CDS \u{2714}\u{fe0e} 🚀75");
    assert_eq!(menu.summary.severity, WARNING);
    assert_eq!(menu.summary.color(), Some(Color::Orange));
}

#[test]
fn the_alarm_is_found_on_any_line() {
    let last = vec![
        component("Global/Status", "OK"),
        component("api/Database", "OK"),
        component("Global/Status", "AL"),
    ];
    assert!(detect_global_alarm(&last));
    let first = vec![component("Global/Status", "AL"), component("Global/Status", "OK")];
    assert!(detect_global_alarm(&first));
}

#[test]
fn other_components_and_other_flags_are_no_alarm() {
    assert!(!detect_global_alarm(&vec![]));
    assert!(!detect_global_alarm(&vec![component("Global/Status", "OK")]));
    assert!(!detect_global_alarm(&vec![component("Global/Status", "W")]));
    assert!(!detect_global_alarm(&vec![component("Global/Status", "al")]));
    assert!(!detect_global_alarm(&vec![component("api/Status", "AL")]));
    assert!(!detect_global_alarm(&vec![component("Global/Status ", "AL")]));
    assert!(!detect_global_alarm(&vec![component("Global/Status", ""), component("", "AL")]));
    assert!(component("Global/Status", "AL").is_global_alarm());
}

#[test]
fn bookmarks_follow_the_health_section() {
    let bookmarks = vec![
        Bookmark { key: "A".to_string(), workflow_name: "w".to_string(), kind: "workflow".to_string() },
        Bookmark { key: "B".to_string(), workflow_name: "x".to_string(), kind: "workflow".to_string() },
    ];
    let runs = vec![
        RunStatus::Fetched { number: 4, sub_number: 2, status: "Waiting".to_string() },
        RunStatus::Fetched { number: 8, sub_number: 0, status: "Success".to_string() },
    ];
    let menu = display_as_admin("prod", "http://ui", &vec![], 120, &bookmarks, &runs);
    assert_eq!(menu.summary.label, "prod \u{2714}\u{fe0e} 🚀120 🚧1");
    assert_eq!(menu.summary.severity, ALERT);
    assert_eq!(menu.summary.in_progress, 1);
    assert_eq!(
        menu.entries,
        vec![
            title("CDS Status"),
            item("Global/Status OK", SeverityTier::Nominal, Some("http://ui/admin/services")),
            DisplayEntry::Separator,
            title("Bookmarks"),
            item("A/w #4.2", SeverityTier::InProgress, Some("http://ui/project/A/workflow/w/run/4")),
            item("B/x #8.0", SeverityTier::Nominal, Some("http://ui/project/B/workflow/x/run/8")),
        ]
    );
}

#[test]
fn alarm_headline_with_queue_and_runs_in_progress() {
    let bookmarks = vec![Bookmark {
        key: "A".to_string(),
        workflow_name: "w".to_string(),
        kind: "workflow".to_string(),
    }];
    let runs = vec![RunStatus::Fetched { number: 1, sub_number: 0, status: "Building".to_string() }];
    let components = vec![component("Global/Status", "AL")];
    let menu = display_as_admin("CDS", "u", &components, 101, &bookmarks, &runs);
    assert_eq!(menu.summary.label, "CDS ✘ 🚀101 🚧1");
    assert_eq!(menu.summary.severity, ALERT);
}

#[test]
fn a_negative_queue_depth_is_shown_with_its_sign() {
    let menu = display_as_admin("CDS", "u", &vec![], -3, &vec![], &vec![]);
    assert_eq!(menu.summary.label, "CDS \u{2714}\u{fe0e} 🚀-3");
    assert_eq!(menu.summary.severity, NOMINAL);
}
