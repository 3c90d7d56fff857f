use cds_status::admin::display_as_admin;
use cds_status::bitbar::show;
use cds_status::entry::DisplayEntry;
use cds_status::menu::{HeadlineSeverity, StatusMenu, Summary};
use cds_status::model::{Bookmark, Broadcast, Component, RunStatus};
use cds_status::standard::display_as_user;
use cds_status::tier::SeverityTier;
use rust_bitbar::{Plugin, SubMenuItem};

fn menu_of(label: &str, severity: Option<HeadlineSeverity>, entries: Vec<DisplayEntry>) -> StatusMenu {
    StatusMenu { summary: Summary { label: label.to_string(), severity, in_progress: 0 }, entries }
}

fn shown(menu: &StatusMenu) -> String {
    let mut plugin = Plugin::new();
    show(menu, &mut plugin);
    plugin.to_string()
}

#[test]
fn a_bare_headline() {
    assert_eq!(shown(&menu_of("CDS", None, vec![])), "CDS\n---\n");
}

#[test]
fn a_headline_in_each_colour() {
    let alert = Some(HeadlineSeverity::Tier(SeverityTier::Alert));
    assert_eq!(shown(&menu_of("CDS 🔔2", alert, vec![])), "CDS 🔔2 | color=\"#FF4F60\"\n---\n");
    let warning = Some(HeadlineSeverity::Warning);
    assert_eq!(shown(&menu_of("CDS", warning, vec![])), "CDS | color=\"#FE9A76\"\n---\n");
    let nominal = Some(HeadlineSeverity::Tier(SeverityTier::Nominal));
    assert_eq!(shown(&menu_of("CDS", nominal, vec![])), "CDS | color=\"#21BA45\"\n---\n");
    let info = Some(HeadlineSeverity::Tier(SeverityTier::InProgress));
    assert_eq!(shown(&menu_of("CDS", info, vec![])), "CDS | color=\"#4fa3e3\"\n---\n");
}

#[test]
fn each_kind_of_line() {
    let entries = vec![
        DisplayEntry::Title { label: "Bookmarks".to_string() },
        DisplayEntry::Item {
            label: "A/w #1.0".to_string(),
            tier: SeverityTier::Nominal,
            link: Some("http://ui/project/A/workflow/w/run/1".to_string()),
        },
        DisplayEntry::Item {
            label: "B/x #0.0 never built".to_string(),
            tier: SeverityTier::Unknown,
            link: None,
        },
        DisplayEntry::Separator,
        DisplayEntry::Item { label: "last".to_string(), tier: SeverityTier::Alert, link: None },
    ];
    assert_eq!(
        shown(&menu_of("CDS", None, entries)),
        "CDS\n\
         ---\n\
         Bookmarks | color=\"#8c96a5\"\n\
         A/w #1.0 | color=\"#21BA45\" href='http://ui/project/A/workflow/w/run/1'\n\
         B/x #0.0 never built | color=\"grey\"\n\
         ---\n\
         last | color=\"#FF4F60\"\n"
    );
}

#[test]
fn the_plugin_holds_one_status_line_and_one_menu_line_for_each_entry() {
    let entries = vec![
        DisplayEntry::Title { label: "t".to_string() },
        DisplayEntry::Separator,
        DisplayEntry::Item { label: "i".to_string(), tier: SeverityTier::Skipped, link: None },
    ];
    let mut plugin = Plugin::new();
    show(&menu_of("CDS", None, entries), &mut plugin);
    assert_eq!(plugin.status_bar.lines.len(), 1);
    assert_eq!(plugin.status_bar.lines[0].to_string(), "CDS");
    let sub_menu = plugin.sub_menu.expect("a drop-down menu");
    assert_eq!(sub_menu.lines.len(), 3);
    let texts: Vec<String> = sub_menu
        .lines
        .iter()
        .map(|item| match item {
            SubMenuItem::Line(line) => line.to_string(),
            SubMenuItem::SubMenu(_) => "nested".to_string(),
        })
        .collect();
    assert_eq!(texts, vec!["t | color=\"#8c96a5\"", "---", "i | color=\"grey\""]);
}

#[test]
fn showing_twice_adds_a_status_line_and_replaces_the_menu() {
    let first = menu_of(
        "one",
        None,
        vec![DisplayEntry::Item { label: "a".to_string(), tier: SeverityTier::Alert, link: None }],
    );
    let second = menu_of("two", None, vec![DisplayEntry::Title { label: "b".to_string() }]);
    let mut plugin = Plugin::new();
    show(&first, &mut plugin);
    show(&second, &mut plugin);
    assert_eq!(plugin.to_string(), "one\ntwo\n---\nb | color=\"#8c96a5\"\n");
}

#[test]
fn the_standard_policy_as_the_plugin_prints_it() {
    let broadcasts = vec![
        Broadcast { id: 1, title: "Plain news".to_string(), level: "info".to_string(), read: false },
        Broadcast { id: 2, title: "Careful".to_string(), level: "warning".to_string(), read: false },
    ];
    let bookmarks = vec![
        Bookmark { key: "A".to_string(), workflow_name: "w".to_string(), kind: "workflow".to_string() },
        Bookmark { key: "B".to_string(), workflow_name: "x".to_string(), kind: "workflow".to_string() },
    ];
    let runs = vec![
        RunStatus::Fetched { number: 3, sub_number: 1, status: "Building".to_string() },
        RunStatus::Failed { code: 500, message: "boom".to_string(), uuid: "42".to_string() },
    ];
    let menu = display_as_user("CDS", "http://ui", &broadcasts, &bookmarks, &runs);
    assert_eq!(
        shown(&menu),
        "CDS 🔔2 🚧1 | color=\"#FF4F60\"\n\
         ---\n\
         Broadcasts | color=\"#8c96a5\"\n\
         Plain news | color=\"#4fa3e3\" href='http://ui/broadcast/1'\n\
         Careful | color=\"#FF4F60\" href='http://ui/broadcast/2'\n\
         ---\n\
         Bookmarks | color=\"#8c96a5\"\n\
         A/w #3.1 | color=\"#4fa3e3\" href='http://ui/project/A/workflow/w/run/3'\n\
         B/x ERROR : status: 500, message: boom, uuid: 42 | color=\"#FF4F60\"\n"
    );
}

#[test]
fn the_administrative_policy_as_the_plugin_prints_it() {
    let components = vec![Component { name: "Global/Status".to_string(), status: "AL".to_string() }];
    let menu = display_as_admin("CDS", "http://ui", &components, 0, &vec![], &vec![]);
    assert_eq!(
        shown(&menu),
        "CDS ✘ 🚀0 | color=\"#FF4F60\"\n\
         ---\n\
         CDS Status | color=\"#8c96a5\"\n\
         Global/Status Alarm | color=\"#FF4F60\" href='http://ui/admin/services'\n\
         ---\n"
    );
}
