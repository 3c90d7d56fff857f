//! What a policy hands to the display: the headline and the lines below it.

use vstd::prelude::*;
use vstd::string::StringExecFns;
use crate::entry::{DisplayEntry, EntryView};
use crate::model::views;
use crate::text::{decimal, push_decimal};
use crate::tier::{tier_color, Color, SeverityTier};

verus! {

/// The severity of the headline: a tier, or the warning of a queue that is
/// filling up, which no single line can have.
#[derive(Clone, Copy, Debug, PartialEq, Eq, Structural)]
pub enum HeadlineSeverity {
    Tier(SeverityTier),
    Warning,
}

/// The headline: its label, its severity if it has one, and the number of
/// runs in progress.
#[derive(Clone, Debug, PartialEq, Eq)]
pub struct Summary {
    pub label: String,
    pub severity: Option<HeadlineSeverity>,
    pub in_progress: usize,
}

/// A headline, with its label as a sequence of characters.
pub struct SummaryView {
    pub label: Seq<char>,
    pub severity: Option<HeadlineSeverity>,
    pub in_progress: nat,
}

impl View for Summary {
    type V = SummaryView;

    open spec fn view(&self) -> SummaryView {
        SummaryView {
            label: self.label@,
            severity: self.severity,
            in_progress: self.in_progress as nat,
        }
    }
}

/// The headline and the lines below it, in the order of display.
#[derive(Clone, Debug, PartialEq, Eq)]
pub struct StatusMenu {
    pub summary: Summary,
    pub entries: Vec<DisplayEntry>,
}

/// A menu as the views of its headline and of its lines.
pub struct MenuView {
    pub summary: SummaryView,
    pub entries: Seq<EntryView>,
}

impl View for StatusMenu {
    type V = MenuView;

    open spec fn view(&self) -> MenuView {
        MenuView { summary: self.summary@, entries: views(self.entries@) }
    }
}

/// The colour of a headline: that of its tier, orange for the warning, none
/// where it has no severity.
pub open spec fn headline_color(severity: Option<HeadlineSeverity>) -> Option<Color> {
    match severity {
        None => None,
        Some(HeadlineSeverity::Tier(tier)) => Some(tier_color(tier)),
        Some(HeadlineSeverity::Warning) => Some(Color::Orange),
    }
}

/// The mark of runs in progress in the headline: a sign and their number.
pub open spec fn in_progress_marker(count: nat) -> Seq<char> {
    if count > 0 {
        " 🚧"@ + decimal(count)
    } else {
        Seq::empty()
    }
}

impl HeadlineSeverity {
    /// The colour of a headline of this severity.
    pub fn color(self) -> (color: Color)
        ensures
            Some(color) == headline_color(Some(self)),
    {
        match self {
            HeadlineSeverity::Tier(tier) => tier.color(),
            HeadlineSeverity::Warning => Color::Orange,
        }
    }
}

impl Summary {
    /// The colour of this headline, if it has one.
    pub fn color(&self) -> (color: Option<Color>)
        ensures
            color == headline_color(self@.severity),
    {
        match self.severity {
            None => None,
            Some(severity) => Some(severity.color()),
        }
    }
}

/// Appends the mark of runs in progress to a headline label.
pub(crate) fn push_in_progress_marker(label: &mut String, in_progress: usize)
    ensures
        final(label)@ == old(label)@ + in_progress_marker(in_progress as nat),
{
    if in_progress > 0 {
        label.append(" 🚧");
        push_decimal(label, in_progress as u64);
    }
}

} // verus!
