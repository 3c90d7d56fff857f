//! The menu as the status-bar plugin takes it: the headline becomes the
//! line of the status bar, and each line below it a line of the drop-down
//! menu, built with `rust_bitbar`.

use vstd::prelude::*;
use crate::entry::{DisplayEntry, EntryView};
use crate::menu::{headline_color, StatusMenu, SummaryView};
use crate::tier::{color_code, tier_color, Color};

verus! {

/// `rust_bitbar::Line`, a line of the plugin's output; what it holds is named by `line_content`.
#[verifier::external_type_specification]
#[verifier::external_body]
pub struct ExLine(rust_bitbar::Line);

/// `rust_bitbar::SubMenu`, the drop-down menu; what it holds is named by `menu_lines`.
#[verifier::external_type_specification]
#[verifier::external_body]
pub struct ExSubMenu(rust_bitbar::SubMenu);

/// `rust_bitbar::Plugin`, the whole output; what it holds is named by
/// `status_lines` and `plugin_menu`.
#[verifier::external_type_specification]
#[verifier::external_body]
pub struct ExPlugin(rust_bitbar::Plugin);

/// What the library puts into a line of the plugin: its text, its colour
/// and the address it leads to, each empty where unset, and whether it is a
/// horizontal rule.
pub struct LineView {
    pub text: Seq<char>,
    pub color: Seq<char>,
    pub href: Seq<char>,
    pub rule: bool,
}

/// The text, colour, address and rule flag that a line holds.
pub uninterp spec fn line_content(line: rust_bitbar::Line) -> LineView;

/// The lines of a drop-down menu, first to last.
pub uninterp spec fn menu_lines(menu: rust_bitbar::SubMenu) -> Seq<LineView>;

/// The lines of a plugin's status bar, first to last.
pub uninterp spec fn status_lines(plugin: rust_bitbar::Plugin) -> Seq<LineView>;

/// The lines of a plugin's drop-down menu, if it was given one.
pub uninterp spec fn plugin_menu(plugin: rust_bitbar::Plugin) -> Option<Seq<LineView>>;

/// A line with the given text and nothing else set.
pub open spec fn plain_line(text: Seq<char>) -> LineView {
    LineView { text, color: Seq::empty(), href: Seq::empty(), rule: false }
}

/// The horizontal rule that `rust_bitbar` puts between two groups of lines.
pub open spec fn rule_line() -> LineView {
    LineView { text: "---"@, color: Seq::empty(), href: Seq::empty(), rule: true }
}

/// `rust_bitbar::Line::new`: the line holds the text, and no colour, no
/// address and no rule flag.
#[verifier::external_body]
fn new_line(text: &str) -> (line: rust_bitbar::Line)
    ensures
        line_content(line) == plain_line(text@),
{
    rust_bitbar::Line::new(text)
}

/// `rust_bitbar::Line::set_color`: the colour is replaced, the rest stays.
#[verifier::external_body]
fn set_color(line: &mut rust_bitbar::Line, color: &str)
    ensures
        line_content(*final(line)) == (LineView { color: color@, ..line_content(*old(line)) }),
{
    line.set_color(color);
}

/// `rust_bitbar::Line::set_href`: the address is replaced, the rest stays.
#[verifier::external_body]
fn set_href(line: &mut rust_bitbar::Line, href: &str)
    ensures
        line_content(*final(line)) == (LineView { href: href@, ..line_content(*old(line)) }),
{
    line.set_href(href);
}

/// `rust_bitbar::SubMenu::new`: a menu without lines.
#[verifier::external_body]
fn new_sub_menu() -> (menu: rust_bitbar::SubMenu)
    ensures
        menu_lines(menu) == Seq::<LineView>::empty(),
{
    rust_bitbar::SubMenu::new()
}

/// `rust_bitbar::SubMenu::add_line`: the line is put after those that are there.
#[verifier::external_body]
fn add_line(menu: &mut rust_bitbar::SubMenu, line: rust_bitbar::Line)
    ensures
        menu_lines(*final(menu)) == menu_lines(*old(menu)).push(line_content(line)),
{
    menu.add_line(line);
}

/// `rust_bitbar::SubMenu::add_hr`: a horizontal rule is put after the lines that are there.
#[verifier::external_body]
fn add_rule(menu: &mut rust_bitbar::SubMenu)
    ensures
        menu_lines(*final(menu)) == menu_lines(*old(menu)).push(rule_line()),
{
    menu.add_hr();
}

/// `rust_bitbar::Plugin::set_status_line`: the line is put after those of
/// the status bar; the drop-down menu stays.
#[verifier::external_body]
fn set_status_line(plugin: &mut rust_bitbar::Plugin, line: rust_bitbar::Line)
    ensures
        status_lines(*final(plugin)) == status_lines(*old(plugin)).push(line_content(line)),
        plugin_menu(*final(plugin)) == plugin_menu(*old(plugin)),
{
    plugin.set_status_line(line);
}

/// `rust_bitbar::Plugin::set_sub_menu`: the menu replaces the drop-down
/// menu; the status bar stays.
#[verifier::external_body]
fn set_sub_menu(plugin: &mut rust_bitbar::Plugin, menu: rust_bitbar::SubMenu)
    ensures
        plugin_menu(*final(plugin)) == Some(menu_lines(menu)),
        status_lines(*final(plugin)) == status_lines(*old(plugin)),
{
    plugin.set_sub_menu(menu);
}

/// The text of an optional colour: its code, or nothing.
pub open spec fn color_text(color: Option<Color>) -> Seq<char> {
    match color {
        Some(c) => color_code(c),
        None => Seq::empty(),
    }
}

/// The line of the status bar for a headline: its label, in its colour where it has one.
pub open spec fn headline_line(summary: SummaryView) -> LineView {
    LineView { color: color_text(headline_color(summary.severity)), ..plain_line(summary.label) }
}

/// The line of the drop-down menu for a line of the display.
pub open spec fn entry_line(entry: EntryView) -> LineView {
    match entry {
        EntryView::Separator => rule_line(),
        EntryView::Title { label } => LineView {
            color: color_code(Color::LightGrey),
            ..plain_line(label)
        },
        EntryView::Item { label, tier, link } => LineView {
            color: color_code(tier_color(tier)),
            href: match link {
                Some(address) => address,
                None => Seq::empty(),
            },
            ..plain_line(label)
        },
    }
}

/// The lines of the drop-down menu for the lines of the display, in their order.
pub open spec fn entry_lines(entries: Seq<EntryView>) -> Seq<LineView> {
    entries.map_values(|e: EntryView| entry_line(e))
}

/// Hands a menu to the plugin: the headline goes to the status bar, the
/// lines below it become the plugin's drop-down menu, in their order.
pub fn show(menu: &StatusMenu, plugin: &mut rust_bitbar::Plugin)
    ensures
        status_lines(*final(plugin)) == status_lines(*old(plugin)).push(
            headline_line(menu@.summary),
        ),
        plugin_menu(*final(plugin)) == Some(entry_lines(menu@.entries)),
{
    let mut status_line = new_line(menu.summary.label.as_str());
    match menu.summary.color() {
        Some(color) => {
            set_color(&mut status_line, color.code());
        },
        None => {},
    }
    let mut sub_menu = new_sub_menu();
    let mut i: usize = 0;
    while i < menu.entries.len()
        invariant
            i <= menu.entries.len(),
            menu_lines(sub_menu) == entry_lines(menu@.entries.take(i as int)),
        decreases menu.entries.len() - i,
    {
        match &menu.entries[i] {
            DisplayEntry::Separator => {
                add_rule(&mut sub_menu);
            },
            DisplayEntry::Title { label } => {
                let mut line = new_line(label.as_str());
                set_color(&mut line, Color::LightGrey.code());
                add_line(&mut sub_menu, line);
            },
            DisplayEntry::Item { label, tier, link } => {
                let mut line = new_line(label.as_str());
                set_color(&mut line, tier.color().code());
                match link {
                    Some(address) => {
                        set_href(&mut line, address.as_str());
                    },
                    None => {},
                }
                add_line(&mut sub_menu, line);
            },
        }
        i += 1;
    }
    set_status_line(plugin, status_line);
    set_sub_menu(plugin, sub_menu);
}

} // verus!
