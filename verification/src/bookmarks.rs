//! The bookmarks section, which both policies show: a title, then one line
//! for each workflow bookmark, in the order of the bookmarks.

use vstd::prelude::*;
use crate::entry::{run_label, run_link, workflow_entry, DisplayEntry, EntryView};
use crate::fetch::{
    count_in_progress, in_progress, in_progress_count, run_tier, select_workflows, workflows,
};
use crate::model::{views, Bookmark, BookmarkView, RunStatus, RunView};
use crate::tier::SeverityTier;

verus! {

/// The lines of the workflow bookmarks: one for each, in their order, from
/// the run status at the same position.
pub open spec fn workflow_entries(
    ui_url: Seq<char>,
    targets: Seq<BookmarkView>,
    runs: Seq<RunView>,
) -> Seq<EntryView> {
    Seq::new(targets.len(), |i: int| workflow_entry(ui_url, targets[i], runs[i]))
}

/// The title of the bookmarks section, shown when there is any bookmark at all.
pub open spec fn bookmarks_title(bookmarks: Seq<BookmarkView>) -> Seq<EntryView> {
    if bookmarks.len() > 0 {
        seq![EntryView::Title { label: "Bookmarks"@ }]
    } else {
        seq![]
    }
}

/// The bookmarks section: its title, then the lines of the workflow bookmarks.
pub open spec fn bookmarks_section(
    ui_url: Seq<char>,
    bookmarks: Seq<BookmarkView>,
    runs: Seq<RunView>,
) -> Seq<EntryView> {
    bookmarks_title(bookmarks) + workflow_entries(ui_url, workflows(bookmarks), runs)
}

/// Appends the line of each workflow bookmark to `entries`, in the order of
/// the bookmarks, and counts the runs in progress. `runs` holds the run
/// status of each workflow bookmark, at the same position.
pub fn add_workflow_run_status(
    ui_url: &str,
    bookmarks: &Vec<Bookmark>,
    runs: &Vec<RunStatus>,
    entries: &mut Vec<DisplayEntry>,
) -> (in_progress: usize)
    requires
        runs@.len() == workflows(views(bookmarks@)).len(),
    ensures
        views(final(entries)@) == views(old(entries)@) + workflow_entries(
            ui_url@,
            workflows(views(bookmarks@)),
            views(runs@),
        ),
        in_progress == in_progress_count(views(runs@)),
{
    let targets = select_workflows(bookmarks);
    let ghost lines = workflow_entries(ui_url@, workflows(views(bookmarks@)), views(runs@));
    let mut k: usize = 0;
    while k < targets.len()
        invariant
            k <= targets@.len(),
            targets@.len() == runs@.len(),
            targets@.len() == workflows(views(bookmarks@)).len(),
            forall|i: int|
                0 <= i < targets@.len() ==> (#[trigger] targets@[i])@ == workflows(
                    views(bookmarks@),
                )[i],
            lines == workflow_entries(ui_url@, workflows(views(bookmarks@)), views(runs@)),
            views(entries@) == views(old(entries)@) + lines.take(k as int),
        decreases targets@.len() - k,
    {
        let entry = DisplayEntry::workflow(ui_url, targets[k], &runs[k]);
        proof {
            assert(views(entries@.push(entry)) =~= views(entries@).push(entry@));
        }
        entries.push(entry);
        k += 1;
    }
    count_in_progress(runs)
}

/// Appends the bookmarks section to `entries`: its title where there is any
/// bookmark, then the lines of the workflow bookmarks.
pub(crate) fn add_bookmarks_section(
    ui_url: &str,
    bookmarks: &Vec<Bookmark>,
    runs: &Vec<RunStatus>,
    entries: &mut Vec<DisplayEntry>,
) -> (in_progress: usize)
    requires
        runs@.len() == workflows(views(bookmarks@)).len(),
    ensures
        views(final(entries)@) == views(old(entries)@) + bookmarks_section(
            ui_url@,
            views(bookmarks@),
            views(runs@),
        ),
        in_progress == in_progress_count(views(runs@)),
{
    if bookmarks.len() > 0 {
        entries.push(DisplayEntry::title("Bookmarks"));
    }
    add_workflow_run_status(ui_url, bookmarks, runs, entries)
}

/// Whether a line is an item in the tier of work in progress.
pub open spec fn shows_in_progress(entry: EntryView) -> bool {
    entry matches EntryView::Item { tier, .. } && tier == SeverityTier::InProgress
}

/// Every workflow bookmark has exactly one line, at its own position and
/// made from the run status at that position, whether the fetch succeeded
/// or failed.
pub proof fn one_line_per_workflow(
    ui_url: Seq<char>,
    bookmarks: Seq<BookmarkView>,
    runs: Seq<RunView>,
)
    requires
        runs.len() == workflows(bookmarks).len(),
    ensures
        workflow_entries(ui_url, workflows(bookmarks), runs).len() == workflows(bookmarks).len(),
        forall|i: int|
            0 <= i < runs.len() ==> #[trigger] workflow_entries(
                ui_url,
                workflows(bookmarks),
                runs,
            )[i] == (EntryView::Item {
                label: run_label(workflows(bookmarks)[i], runs[i]),
                tier: run_tier(runs[i]),
                link: run_link(ui_url, workflows(bookmarks)[i], runs[i]),
            }),
{
}

/// The count of runs in progress is the number of bookmark lines that are
/// shown as work in progress.
pub proof fn in_progress_lines_match_count(
    ui_url: Seq<char>,
    targets: Seq<BookmarkView>,
    runs: Seq<RunView>,
)
    requires
        targets.len() == runs.len(),
    ensures
        workflow_entries(ui_url, targets, runs).filter(|e: EntryView| shows_in_progress(e)).len()
            == in_progress_count(runs),
    decreases runs.len(),
{
    reveal(Seq::filter);
    if runs.len() > 0 {
        in_progress_lines_match_count(ui_url, targets.drop_last(), runs.drop_last());
        assert(workflow_entries(ui_url, targets, runs).drop_last() =~= workflow_entries(
            ui_url,
            targets.drop_last(),
            runs.drop_last(),
        ));
    }
}

} // verus!
