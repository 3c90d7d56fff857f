//! The standard policy: the unread announcements, then the bookmarks.

use vstd::prelude::*;
use vstd::string::StringExecFns;
use crate::bookmarks::{add_bookmarks_section, bookmarks_section};
use crate::entry::{broadcast_entry, broadcast_tier, is_warning, DisplayEntry, EntryView};
use crate::fetch::{in_progress_count, workflows};
use crate::menu::{
    in_progress_marker, push_in_progress_marker, HeadlineSeverity, MenuView, StatusMenu, Summary,
    SummaryView,
};
use crate::model::{views, Bookmark, BookmarkView, Broadcast, BroadcastView, RunStatus, RunView};
use crate::text::{decimal, push_decimal};
use crate::tier::{most_severe, most_severe_picks_top, SeverityTier};

verus! {

/// The announcements that were not read yet, in their order.
pub open spec fn unread(broadcasts: Seq<BroadcastView>) -> Seq<BroadcastView> {
    broadcasts.filter(|b: BroadcastView| !b.read)
}

/// The lines of the given announcements, in their order.
pub open spec fn broadcast_entries(ui_url: Seq<char>, news: Seq<BroadcastView>) -> Seq<EntryView> {
    news.map_values(|b: BroadcastView| broadcast_entry(ui_url, b))
}

/// The tiers of the given announcements, in their order.
pub open spec fn broadcast_tiers(news: Seq<BroadcastView>) -> Seq<SeverityTier> {
    news.map_values(|b: BroadcastView| broadcast_tier(b))
}

/// The announcements section: nothing where all was read; else a title, a
/// line for each unread announcement, and a separator.
pub open spec fn announcements_section(ui_url: Seq<char>, broadcasts: Seq<BroadcastView>) -> Seq<
    EntryView,
> {
    if unread(broadcasts).len() == 0 {
        seq![]
    } else {
        seq![EntryView::Title { label: "Broadcasts"@ }] + broadcast_entries(
            ui_url,
            unread(broadcasts),
        ) + seq![EntryView::Separator]
    }
}

/// The mark of unread announcements in the headline: a bell and their number.
pub open spec fn bell_marker(count: nat) -> Seq<char> {
    if count > 0 {
        " 🔔"@ + decimal(count)
    } else {
        Seq::empty()
    }
}

/// The severity of the standard headline: the tier that wins among the
/// unread announcements.
pub open spec fn standard_severity(broadcasts: Seq<BroadcastView>) -> Option<HeadlineSeverity> {
    match most_severe(broadcast_tiers(unread(broadcasts))) {
        None => None,
        Some(tier) => Some(HeadlineSeverity::Tier(tier)),
    }
}

/// The standard headline.
pub open spec fn standard_summary(
    name: Seq<char>,
    broadcasts: Seq<BroadcastView>,
    runs: Seq<RunView>,
) -> SummaryView {
    SummaryView {
        label: name + bell_marker(unread(broadcasts).len()) + in_progress_marker(
            in_progress_count(runs),
        ),
        severity: standard_severity(broadcasts),
        in_progress: in_progress_count(runs),
    }
}

/// What the standard policy shows.
pub open spec fn standard_menu(
    name: Seq<char>,
    ui_url: Seq<char>,
    broadcasts: Seq<BroadcastView>,
    bookmarks: Seq<BookmarkView>,
    runs: Seq<RunView>,
) -> MenuView {
    MenuView {
        summary: standard_summary(name, broadcasts, runs),
        entries: announcements_section(ui_url, broadcasts) + bookmarks_section(
            ui_url,
            bookmarks,
            runs,
        ),
    }
}

/// The standard policy: the headline is the account's name, with a bell and
/// the number of unread announcements where there are any, and a sign and
/// the number of runs in progress where there are any. Its severity is the
/// tier that wins among the unread announcements. Below it stand the
/// announcements section and the bookmarks section.
pub fn display_as_user(
    name: &str,
    ui_url: &str,
    broadcasts: &Vec<Broadcast>,
    bookmarks: &Vec<Bookmark>,
    runs: &Vec<RunStatus>,
) -> (menu: StatusMenu)
    requires
        runs@.len() == workflows(views(bookmarks@)).len(),
    ensures
        menu@ == standard_menu(
            name@,
            ui_url@,
            views(broadcasts@),
            views(bookmarks@),
            views(runs@),
        ),
{
    let ghost all = views(broadcasts@);
    let mut lines: Vec<DisplayEntry> = Vec::new();
    let mut winner: Option<SeverityTier> = None;
    let mut count: usize = 0;
    let mut i: usize = 0;
    while i < broadcasts.len()
        invariant
            i <= broadcasts.len(),
            all == views(broadcasts@),
            count == unread(all.take(i as int)).len(),
            count <= i,
            views(lines@) == broadcast_entries(ui_url@, unread(all.take(i as int))),
            winner == most_severe(broadcast_tiers(unread(all.take(i as int)))),
        decreases broadcasts.len() - i,
    {
        let ghost before = unread(all.take(i as int));
        proof {
            reveal(Seq::filter);
            assert(all.take(i + 1).drop_last() =~= all.take(i as int));
        }
        if !broadcasts[i].read {
            let entry = DisplayEntry::broadcast(ui_url, &broadcasts[i]);
            let tier = broadcasts[i].tier();
            proof {
                let b = all[i as int];
                assert(views(lines@.push(entry)) =~= views(lines@).push(entry@));
                assert(broadcast_tiers(before.push(b)) =~= broadcast_tiers(before).push(
                    broadcast_tier(b),
                ));
                assert(broadcast_tiers(before).push(broadcast_tier(b)).drop_last()
                    =~= broadcast_tiers(before));
            }
            lines.push(entry);
            winner = match winner {
                None => Some(tier),
                Some(so_far) => Some(so_far.combine(tier)),
            };
            count += 1;
        }
        i += 1;
    }
    proof {
        assert(all.take(broadcasts.len() as int) =~= all);
    }
    let mut label = String::from_str(name);
    let mut entries: Vec<DisplayEntry> = Vec::new();
    if count > 0 {
        label.append(" 🔔");
        push_decimal(&mut label, count as u64);
        entries.push(DisplayEntry::title("Broadcasts"));
        entries.append(&mut lines);
        entries.push(DisplayEntry::Separator);
        proof {
            assert(label@ =~= name@ + bell_marker(count as nat));
            assert(views(entries@) =~= announcements_section(ui_url@, all));
        }
    }
    let in_progress = add_bookmarks_section(ui_url, bookmarks, runs, &mut entries);
    push_in_progress_marker(&mut label, in_progress);
    let severity = match winner {
        None => None,
        Some(tier) => Some(HeadlineSeverity::Tier(tier)),
    };
    StatusMenu { summary: Summary { label, severity, in_progress }, entries }
}

/// What is unread is what was not read: an announcement stands among the
/// unread ones exactly when it stands among all and was not read.
pub proof fn unread_are_those_not_read(broadcasts: Seq<BroadcastView>)
    ensures
        forall|b: BroadcastView| #[trigger]
            unread(broadcasts).contains(b) <==> broadcasts.contains(b) && !b.read,
        unread(broadcasts).len() == 0 <==> forall|i: int|
            0 <= i < broadcasts.len() ==> (#[trigger] broadcasts[i]).read,
    decreases broadcasts.len(),
{
    reveal(Seq::filter);
    if broadcasts.len() > 0 {
        let before = broadcasts.drop_last();
        unread_are_those_not_read(before);
        assert forall|b: BroadcastView| #[trigger]
            unread(broadcasts).contains(b) <==> broadcasts.contains(b) && !b.read by {
            if broadcasts.contains(b) && !b.read {
                let m = choose|m: int| 0 <= m < broadcasts.len() && broadcasts[m] == b;
                if m < before.len() {
                    assert(before[m] == b);
                    assert(unread(before).contains(b));
                }
            }
        }
        if unread(broadcasts).len() == 0 {
            assert forall|i: int| 0 <= i < broadcasts.len() implies (
            #[trigger] broadcasts[i]).read by {
                if i < before.len() {
                    assert(before[i] == broadcasts[i]);
                }
            }
        }
    }
}

/// A warning dominates: the standard headline is an alert exactly when an
/// unread announcement is a warning; it has the tier of plain information
/// exactly when something is unread and nothing unread is a warning; and it
/// has no severity exactly when nothing is unread.
pub proof fn warning_dominates(broadcasts: Seq<BroadcastView>)
    ensures
        standard_severity(broadcasts) == Some(HeadlineSeverity::Tier(SeverityTier::Alert))
            <==> exists|i: int|
            0 <= i < broadcasts.len() && !(#[trigger] broadcasts[i]).read && is_warning(
                broadcasts[i],
            ),
        standard_severity(broadcasts) == Some(HeadlineSeverity::Tier(SeverityTier::InProgress))
            <==> unread(broadcasts).len() > 0 && forall|i: int|
            0 <= i < broadcasts.len() && !(#[trigger] broadcasts[i]).read ==> !is_warning(
                broadcasts[i],
            ),
        standard_severity(broadcasts) is None <==> unread(broadcasts).len() == 0,
{
    let news = unread(broadcasts);
    let tiers = broadcast_tiers(news);
    most_severe_picks_top(tiers);
    unread_are_those_not_read(broadcasts);
    // An unread warning is an alert among the tiers, and the other way round.
    if exists|i: int|
        0 <= i < broadcasts.len() && !(#[trigger] broadcasts[i]).read && is_warning(broadcasts[i]) {
        let i = choose|i: int|
            0 <= i < broadcasts.len() && !(#[trigger] broadcasts[i]).read && is_warning(
                broadcasts[i],
            );
        assert(news.contains(broadcasts[i]));
        let k = choose|k: int| 0 <= k < news.len() && news[k] == broadcasts[i];
        assert(tiers[k] == SeverityTier::Alert);
    }
    if tiers.contains(SeverityTier::Alert) {
        let k = choose|k: int| 0 <= k < tiers.len() && tiers[k] == SeverityTier::Alert;
        assert(news.contains(news[k]));
    }
}

/// Where nothing is unread, the standard policy shows no bell and no
/// announcements section: the label is the name with the mark of runs in
/// progress, and the lines are those of the bookmarks section.
pub proof fn nothing_unread_shows_no_announcements(
    name: Seq<char>,
    ui_url: Seq<char>,
    broadcasts: Seq<BroadcastView>,
    bookmarks: Seq<BookmarkView>,
    runs: Seq<RunView>,
)
    requires
        forall|i: int| 0 <= i < broadcasts.len() ==> (#[trigger] broadcasts[i]).read,
    ensures
        standard_menu(name, ui_url, broadcasts, bookmarks, runs).summary.label == name
            + in_progress_marker(in_progress_count(runs)),
        standard_menu(name, ui_url, broadcasts, bookmarks, runs).summary.severity is None,
        standard_menu(name, ui_url, broadcasts, bookmarks, runs).entries == bookmarks_section(
            ui_url,
            bookmarks,
            runs,
        ),
{
    unread_are_those_not_read(broadcasts);
}

/// Where something is unread, the standard policy shows the bell with the
/// number of unread announcements, and the announcements section holds a
/// title, one line for each unread announcement, and a separator, before
/// the bookmarks section.
pub proof fn unread_show_bell_and_section(
    name: Seq<char>,
    ui_url: Seq<char>,
    broadcasts: Seq<BroadcastView>,
    bookmarks: Seq<BookmarkView>,
    runs: Seq<RunView>,
)
    requires
        unread(broadcasts).len() > 0,
    ensures
        standard_menu(name, ui_url, broadcasts, bookmarks, runs).summary.label == name + " 🔔"@
            + decimal(unread(broadcasts).len()) + in_progress_marker(in_progress_count(runs)),
        announcements_section(ui_url, broadcasts).len() == unread(broadcasts).len() + 2,
        announcements_section(ui_url, broadcasts).first() == (EntryView::Title {
            label: "Broadcasts"@,
        }),
        announcements_section(ui_url, broadcasts).last() == EntryView::Separator,
        forall|k: int|
            0 <= k < unread(broadcasts).len() ==> #[trigger] announcements_section(
                ui_url,
                broadcasts,
            )[k + 1] == broadcast_entry(ui_url, unread(broadcasts)[k]),
{
}

} // verus!
