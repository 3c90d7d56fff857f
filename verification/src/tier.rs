//! Severity tiers: the classification of raw status tokens and fetch
//! failures, the precedence between tiers, and the colour of each.

use vstd::prelude::*;
use crate::text::same_text;

verus! {

/// How serious one signal is.
#[derive(Clone, Copy, Debug, PartialEq, Eq, Structural)]
pub enum SeverityTier {
    /// The run succeeded.
    Nominal,
    /// The run is still going.
    InProgress,
    /// The run was skipped.
    Skipped,
    /// The run failed, or its state could not be read.
    Alert,
    /// Nothing was ever built.
    Unknown,
}

/// The colours of the status display.
#[derive(Clone, Copy, Debug, PartialEq, Eq, Structural)]
pub enum Color {
    Green,
    Blue,
    Grey,
    Red,
    /// Kept for the middle step of the queue-depth ladder.
    Orange,
    /// Section titles.
    LightGrey,
}

/// The HTTP status with which the remote service says that a workflow has no run yet.
pub const NOT_FOUND: u16 = 404;

/// The tier of a raw status token: an exact-match table, every other token being an alert.
pub open spec fn token_tier(token: Seq<char>) -> SeverityTier {
    if token == "Success"@ {
        SeverityTier::Nominal
    } else if token == "Building"@ || token == "Checking"@ || token == "Waiting"@ {
        SeverityTier::InProgress
    } else if token == "Skipped"@ || token == "Never Built"@ {
        SeverityTier::Skipped
    } else {
        SeverityTier::Alert
    }
}

/// Whether a token is one that the table of `token_tier` names.
pub open spec fn recognized(token: Seq<char>) -> bool {
    ||| token == "Success"@
    ||| token == "Building"@
    ||| token == "Checking"@
    ||| token == "Waiting"@
    ||| token == "Skipped"@
    ||| token == "Never Built"@
}

/// The tier of a failed fetch: "not found" means that nothing was built yet,
/// any other failure is an alert.
pub open spec fn failure_tier(code: u16) -> SeverityTier {
    if code == NOT_FOUND {
        SeverityTier::Unknown
    } else {
        SeverityTier::Alert
    }
}

/// The colour in which a tier is shown.
pub open spec fn tier_color(tier: SeverityTier) -> Color {
    match tier {
        SeverityTier::Nominal => Color::Green,
        SeverityTier::InProgress => Color::Blue,
        SeverityTier::Skipped => Color::Grey,
        SeverityTier::Alert => Color::Red,
        SeverityTier::Unknown => Color::Grey,
    }
}

/// The text by which the display names a colour.
pub open spec fn color_code(color: Color) -> Seq<char> {
    match color {
        Color::Green => "#21BA45"@,
        Color::Blue => "#4fa3e3"@,
        Color::Grey => "grey"@,
        Color::Red => "#FF4F60"@,
        Color::Orange => "#FE9A76"@,
        Color::LightGrey => "#8c96a5"@,
    }
}

/// The place of a tier in the order of precedence: an alert outranks work in
/// progress, which outranks the rest.
pub open spec fn precedence(tier: SeverityTier) -> nat {
    match tier {
        SeverityTier::Nominal => 0,
        SeverityTier::Skipped => 1,
        SeverityTier::Unknown => 2,
        SeverityTier::InProgress => 3,
        SeverityTier::Alert => 4,
    }
}

/// The tier that wins when two signals are combined.
pub open spec fn dominant(a: SeverityTier, b: SeverityTier) -> SeverityTier {
    if precedence(a) >= precedence(b) {
        a
    } else {
        b
    }
}

/// The tier that wins among all of `tiers`, if there is any.
pub open spec fn most_severe(tiers: Seq<SeverityTier>) -> Option<SeverityTier>
    decreases tiers.len(),
{
    if tiers.len() == 0 {
        None
    } else {
        match most_severe(tiers.drop_last()) {
            None => Some(tiers.last()),
            Some(before) => Some(dominant(before, tiers.last())),
        }
    }
}

/// Classifies a raw status token. Total: a token that the table does not name is an alert.
pub fn classify(token: &str) -> (tier: SeverityTier)
    ensures
        tier == token_tier(token@),
{
    if same_text(token, "Success") {
        SeverityTier::Nominal
    } else if same_text(token, "Building") || same_text(token, "Checking") || same_text(
        token,
        "Waiting",
    ) {
        SeverityTier::InProgress
    } else if same_text(token, "Skipped") || same_text(token, "Never Built") {
        SeverityTier::Skipped
    } else {
        SeverityTier::Alert
    }
}

/// Classifies a failed fetch by the HTTP status that came with it.
pub fn classify_failure(code: u16) -> (tier: SeverityTier)
    ensures
        tier == failure_tier(code),
{
    if code == NOT_FOUND {
        SeverityTier::Unknown
    } else {
        SeverityTier::Alert
    }
}

impl SeverityTier {
    /// The colour in which this tier is shown.
    pub fn color(self) -> (color: Color)
        ensures
            color == tier_color(self),
    {
        match self {
            SeverityTier::Nominal => Color::Green,
            SeverityTier::InProgress => Color::Blue,
            SeverityTier::Skipped => Color::Grey,
            SeverityTier::Alert => Color::Red,
            SeverityTier::Unknown => Color::Grey,
        }
    }

    /// The place of this tier in the order of precedence.
    pub fn rank(self) -> (rank: u8)
        ensures
            rank == precedence(self),
    {
        match self {
            SeverityTier::Nominal => 0,
            SeverityTier::Skipped => 1,
            SeverityTier::Unknown => 2,
            SeverityTier::InProgress => 3,
            SeverityTier::Alert => 4,
        }
    }

    /// The one of two tiers that wins when their signals are combined.
    pub fn combine(self, other: SeverityTier) -> (winner: SeverityTier)
        ensures
            winner == dominant(self, other),
    {
        if self.rank() >= other.rank() {
            self
        } else {
            other
        }
    }
}

impl Color {
    /// The text by which the display names this colour.
    pub fn code(self) -> (code: &'static str)
        ensures
            code@ == color_code(self),
    {
        match self {
            Color::Green => "#21BA45",
            Color::Blue => "#4fa3e3",
            Color::Grey => "grey",
            Color::Red => "#FF4F60",
            Color::Orange => "#FE9A76",
            Color::LightGrey => "#8c96a5",
        }
    }
}

/// Combines the tiers of several signals into the one that wins; `None` when there is no signal.
pub fn combine_all(tiers: &Vec<SeverityTier>) -> (winner: Option<SeverityTier>)
    ensures
        winner == most_severe(tiers@),
{
    let mut winner: Option<SeverityTier> = None;
    let mut i: usize = 0;
    while i < tiers.len()
        invariant
            i <= tiers.len(),
            winner == most_severe(tiers@.take(i as int)),
        decreases tiers.len() - i,
    {
        proof {
            assert(tiers@.take(i + 1).drop_last() =~= tiers@.take(i as int));
        }
        winner = match winner {
            None => Some(tiers[i]),
            Some(before) => Some(before.combine(tiers[i])),
        };
        i += 1;
    }
    proof {
        assert(tiers@.take(tiers.len() as int) =~= tiers@);
    }
    winner
}

/// The six tokens of the table are pairwise distinct, so each has the tier
/// written beside it, and every other token is an alert.
pub proof fn classification_table()
    ensures
        token_tier("Success"@) == SeverityTier::Nominal,
        token_tier("Building"@) == SeverityTier::InProgress,
        token_tier("Checking"@) == SeverityTier::InProgress,
        token_tier("Waiting"@) == SeverityTier::InProgress,
        token_tier("Skipped"@) == SeverityTier::Skipped,
        token_tier("Never Built"@) == SeverityTier::Skipped,
        forall|token: Seq<char>| !recognized(token) ==> token_tier(token) == SeverityTier::Alert,
        forall|token: Seq<char>| token_tier(token) != SeverityTier::Unknown,
{
    reveal_strlit("Success");
    reveal_strlit("Building");
    reveal_strlit("Checking");
    reveal_strlit("Waiting");
    reveal_strlit("Skipped");
    reveal_strlit("Never Built");
    assert("Building"@[0] == 'B');
    assert("Checking"@[0] == 'C');
    assert("Waiting"@[0] == 'W');
    assert("Skipped"@[0] == 'S' && "Skipped"@[1] == 'k');
    assert("Never Built"@[0] == 'N');
}

/// Precedence is a total order on the tiers: no two tiers share a place, and
/// combining is idempotent, commutative and associative, with the alert on top.
pub proof fn precedence_is_total_order(a: SeverityTier, b: SeverityTier, c: SeverityTier)
    ensures
        precedence(a) == precedence(b) ==> a == b,
        dominant(a, a) == a,
        dominant(a, b) == dominant(b, a),
        dominant(dominant(a, b), c) == dominant(a, dominant(b, c)),
        dominant(a, b) == a || dominant(a, b) == b,
        dominant(SeverityTier::Alert, a) == SeverityTier::Alert,
        a != SeverityTier::Alert ==> dominant(SeverityTier::InProgress, a)
            == SeverityTier::InProgress,
{
}

/// The winner among several signals is an alert exactly when one of them is;
/// failing that, it is work in progress exactly when one of them is.
pub proof fn most_severe_picks_top(tiers: Seq<SeverityTier>)
    ensures
        most_severe(tiers) is None <==> tiers.len() == 0,
        most_severe(tiers) == Some(SeverityTier::Alert) <==> tiers.contains(SeverityTier::Alert),
        most_severe(tiers) == Some(SeverityTier::InProgress) <==> !tiers.contains(
            SeverityTier::Alert,
        ) && tiers.contains(SeverityTier::InProgress),
        most_severe(tiers) matches Some(t) ==> tiers.contains(t),
    decreases tiers.len(),
{
    if tiers.len() > 0 {
        let before = tiers.drop_last();
        most_severe_picks_top(before);
        assert(tiers =~= before.push(tiers.last()));
    }
}

} // verus!
