//! Which bookmarks have runs to fetch, and how the fetched runs come back
//! in the order of the bookmarks.

use vstd::prelude::*;
use crate::model::{views, Bookmark, BookmarkView, RunStatus, RunView};
use crate::text::same_text;
use crate::tier::{classify, classify_failure, failure_tier, token_tier, SeverityTier};

verus! {

/// Whether a bookmark is of the kind whose latest run is fetched.
pub open spec fn is_workflow(bookmark: BookmarkView) -> bool {
    bookmark.kind == "workflow"@
}

/// The bookmarks whose latest run is fetched, in their order.
pub open spec fn workflows(bookmarks: Seq<BookmarkView>) -> Seq<BookmarkView> {
    bookmarks.filter(|b: BookmarkView| is_workflow(b))
}

/// As `workflows`, over the records themselves.
pub open spec fn workflow_records(bookmarks: Seq<Bookmark>) -> Seq<Bookmark> {
    bookmarks.filter(|b: Bookmark| is_workflow(b@))
}

/// The tier of a run status: that of its token where the run was fetched,
/// that of the failure where it was not.
pub open spec fn run_tier(run: RunView) -> SeverityTier {
    match run {
        RunView::Fetched { status, .. } => token_tier(status),
        RunView::Failed { code, .. } => failure_tier(code),
    }
}

/// Whether a run status counts as work in progress.
pub open spec fn in_progress(run: RunView) -> bool {
    run_tier(run) == SeverityTier::InProgress
}

/// How many of `runs` are work in progress.
pub open spec fn in_progress_count(runs: Seq<RunView>) -> nat {
    runs.filter(|run: RunView| in_progress(run)).len()
}

impl RunStatus {
    /// The tier of this run status.
    pub fn tier(&self) -> (tier: SeverityTier)
        ensures
            tier == run_tier(self@),
    {
        match self {
            RunStatus::Fetched { status, .. } => classify(status.as_str()),
            RunStatus::Failed { code, .. } => classify_failure(*code),
        }
    }
}

impl Bookmark {
    /// Whether this bookmark is of the kind whose latest run is fetched.
    pub fn is_workflow(&self) -> (yes: bool)
        ensures
            yes == is_workflow(self@),
    {
        same_text(self.kind.as_str(), "workflow")
    }
}

/// Selecting records and then viewing them gives what selecting among the views gives.
pub proof fn workflow_records_view(bookmarks: Seq<Bookmark>)
    ensures
        views(workflow_records(bookmarks)) == workflows(views(bookmarks)),
    decreases bookmarks.len(),
{
    reveal(Seq::filter);
    if bookmarks.len() > 0 {
        workflow_records_view(bookmarks.drop_last());
        assert(views(bookmarks).drop_last() =~= views(bookmarks.drop_last()));
    }
}

/// The bookmarks whose latest run is to be fetched, in the order of `bookmarks`.
pub fn select_workflows<'a>(bookmarks: &'a Vec<Bookmark>) -> (targets: Vec<&'a Bookmark>)
    ensures
        targets@.len() == workflow_records(bookmarks@).len(),
        targets@.len() == workflows(views(bookmarks@)).len(),
        forall|i: int|
            0 <= i < targets@.len() ==> *(#[trigger] targets@[i]) == workflow_records(
                bookmarks@,
            )[i],
        forall|i: int|
            0 <= i < targets@.len() ==> (#[trigger] targets@[i])@ == workflows(
                views(bookmarks@),
            )[i],
{
    let mut targets: Vec<&'a Bookmark> = Vec::new();
    let mut i: usize = 0;
    while i < bookmarks.len()
        invariant
            i <= bookmarks.len(),
            targets@.len() == workflow_records(bookmarks@.take(i as int)).len(),
            forall|k: int|
                0 <= k < targets@.len() ==> *(#[trigger] targets@[k]) == workflow_records(
                    bookmarks@.take(i as int),
                )[k],
        decreases bookmarks.len() - i,
    {
        proof {
            reveal(Seq::filter);
            assert(bookmarks@.take(i + 1).drop_last() =~= bookmarks@.take(i as int));
        }
        if bookmarks[i].is_workflow() {
            targets.push(&bookmarks[i]);
        }
        i += 1;
    }
    proof {
        assert(bookmarks@.take(bookmarks.len() as int) =~= bookmarks@);
        workflow_records_view(bookmarks@);
    }
    targets
}

/// Fetches the latest run of every workflow bookmark, one after the other,
/// in the order of `bookmarks`: the run status at each position is what
/// `fetch` gave for the workflow bookmark at that position. A fetch that
/// fails gives the run status of its failure, and the others go on.
pub fn fetch_all<F: Fn(&Bookmark) -> RunStatus>(bookmarks: &Vec<Bookmark>, fetch: F) -> (runs: Vec<
    RunStatus,
>)
    requires
        forall|i: int|
            0 <= i < bookmarks@.len() && is_workflow(bookmarks@[i]@) ==> call_requires(
                fetch,
                (&#[trigger] bookmarks@[i],),
            ),
    ensures
        runs@.len() == workflow_records(bookmarks@).len(),
        runs@.len() == workflows(views(bookmarks@)).len(),
        forall|i: int|
            0 <= i < runs@.len() ==> call_ensures(
                fetch,
                (&workflow_records(bookmarks@)[i],),
                #[trigger] runs@[i],
            ),
{
    let mut runs: Vec<RunStatus> = Vec::new();
    let mut i: usize = 0;
    while i < bookmarks.len()
        invariant
            i <= bookmarks.len(),
            forall|i: int|
                0 <= i < bookmarks@.len() && is_workflow(bookmarks@[i]@) ==> call_requires(
                    fetch,
                    (&#[trigger] bookmarks@[i],),
                ),
            runs@.len() == workflow_records(bookmarks@.take(i as int)).len(),
            forall|k: int|
                0 <= k < runs@.len() ==> call_ensures(
                    fetch,
                    (&workflow_records(bookmarks@.take(i as int))[k],),
                    #[trigger] runs@[k],
                ),
        decreases bookmarks.len() - i,
    {
        proof {
            reveal(Seq::filter);
            assert(bookmarks@.take(i + 1).drop_last() =~= bookmarks@.take(i as int));
        }
        if bookmarks[i].is_workflow() {
            let run = fetch(&bookmarks[i]);
            runs.push(run);
        }
        i += 1;
    }
    proof {
        assert(bookmarks@.take(bookmarks.len() as int) =~= bookmarks@);
        workflow_records_view(bookmarks@);
    }
    runs
}

/// Counts the runs that are work in progress.
pub fn count_in_progress(runs: &Vec<RunStatus>) -> (count: usize)
    ensures
        count == in_progress_count(views(runs@)),
{
    let mut count: usize = 0;
    let mut i: usize = 0;
    while i < runs.len()
        invariant
            i <= runs.len(),
            count <= i,
            count == in_progress_count(views(runs@).take(i as int)),
        decreases runs.len() - i,
    {
        proof {
            reveal(Seq::filter);
            assert(views(runs@).take(i + 1).drop_last() =~= views(runs@).take(i as int));
        }
        if runs[i].tier() == SeverityTier::InProgress {
            count += 1;
        }
        i += 1;
    }
    proof {
        assert(views(runs@).take(runs.len() as int) =~= views(runs@));
    }
    count
}

/// The count of work in progress is the number of positions whose run is in
/// progress: nothing where none is, all of them where every one is, and
/// never more than there are runs.
pub proof fn in_progress_count_bounds(runs: Seq<RunView>)
    ensures
        in_progress_count(runs) <= runs.len(),
        in_progress_count(runs) == 0 <==> forall|i: int|
            0 <= i < runs.len() ==> !in_progress(#[trigger] runs[i]),
        in_progress_count(runs) == runs.len() <==> forall|i: int|
            0 <= i < runs.len() ==> in_progress(#[trigger] runs[i]),
    decreases runs.len(),
{
    reveal(Seq::filter);
    if runs.len() > 0 {
        let before = runs.drop_last();
        in_progress_count_bounds(before);
        if in_progress_count(runs) == 0 {
            assert forall|i: int| 0 <= i < runs.len() implies !in_progress(#[trigger] runs[i]) by {
                if i < before.len() {
                    assert(before[i] == runs[i]);
                }
            }
        }
        if in_progress_count(runs) == runs.len() {
            assert forall|i: int| 0 <= i < runs.len() implies in_progress(#[trigger] runs[i]) by {
                if i < before.len() {
                    assert(before[i] == runs[i]);
                }
            }
        }
    }
}

} // verus!
