//! The outcome of one check of a service.

use vstd::prelude::*;

verus! {

/// The state a check finds a service in.
#[derive(Debug, Clone, Copy, PartialEq, Eq, Structural)]
pub enum CheckStatus {
    Up,
    Degraded,
    Down,
}

/// The label a status is stored and sent under.
pub open spec fn status_label(s: CheckStatus) -> Seq<char> {
    match s {
        CheckStatus::Up => "up"@,
        CheckStatus::Degraded => "degraded"@,
        CheckStatus::Down => "down"@,
    }
}

impl CheckStatus {
    /// The label of this status: `up`, `degraded` or `down`.
    pub fn as_str(&self) -> (res: &'static str)
        ensures
            res@ == status_label(*self),
    {
        match self {
            CheckStatus::Up => "up",
            CheckStatus::Degraded => "degraded",
            CheckStatus::Down => "down",
        }
    }
}

/// The status of a check whose probe ran: `Down` where its result was not
/// the expected one; otherwise `Degraded` where a latency threshold is set
/// and the probe took longer; otherwise `Up`.
pub open spec fn spec_classify(matched: bool, degraded_ms: Option<u64>, elapsed_ms: u64) -> CheckStatus {
    if !matched {
        CheckStatus::Down
    } else if degraded_ms matches Some(d) && elapsed_ms > d {
        CheckStatus::Degraded
    } else {
        CheckStatus::Up
    }
}

/// The three statuses have three different labels: `up`, `degraded` and
/// `down`.
pub proof fn lemma_status_labels()
    ensures
        status_label(CheckStatus::Up) == "up"@,
        status_label(CheckStatus::Degraded) == "degraded"@,
        status_label(CheckStatus::Down) == "down"@,
        "up"@ != "degraded"@ && "up"@ != "down"@ && "degraded"@ != "down"@,
{
    reveal_strlit("up");
    reveal_strlit("degraded");
    reveal_strlit("down");
    assert("up"@[0] != "degraded"@[0]);
    assert("up"@[0] != "down"@[0]);
    assert("degraded"@[1] != "down"@[1]);
}

/// Classifies a probe that ran (see [`spec_classify`]).
pub fn classify(matched: bool, degraded_ms: Option<u64>, elapsed_ms: u64) -> (res: CheckStatus)
    ensures
        res == spec_classify(matched, degraded_ms, elapsed_ms),
        (res == CheckStatus::Down) == !matched,
        matched ==> ((res == CheckStatus::Degraded) == (degraded_ms matches Some(d) && elapsed_ms > d)),
{
    if !matched {
        CheckStatus::Down
    } else {
        match degraded_ms {
            Some(d) => if elapsed_ms > d {
                CheckStatus::Degraded
            } else {
                CheckStatus::Up
            },
            None => CheckStatus::Up,
        }
    }
}

/// A check is `Down` exactly when its probe's result did not match. A
/// matching probe is `Degraded` exactly when a threshold is set and the probe
/// took longer than it, however much longer, and `Up` otherwise.
pub proof fn lemma_classify_rules(matched: bool, degraded_ms: Option<u64>, elapsed_ms: u64)
    ensures
        (spec_classify(matched, degraded_ms, elapsed_ms) == CheckStatus::Down) == !matched,
        matched && degraded_ms is None ==> spec_classify(matched, degraded_ms, elapsed_ms) == CheckStatus::Up,
        forall|d: u64|
            matched && degraded_ms == Some(d) ==> (spec_classify(matched, degraded_ms, elapsed_ms) == if elapsed_ms
                > d {
                CheckStatus::Degraded
            } else {
                CheckStatus::Up
            }),
{
}

/// A matching probe's status only worsens as it takes longer, and never
/// becomes `Down`: a later answer is at least as bad and at most `Degraded`.
pub proof fn lemma_classify_monotonic(degraded_ms: Option<u64>, fast: u64, slow: u64)
    requires
        fast <= slow,
    ensures
        spec_classify(true, degraded_ms, fast) == CheckStatus::Degraded ==> spec_classify(true, degraded_ms, slow)
            == CheckStatus::Degraded,
        spec_classify(true, degraded_ms, slow) != CheckStatus::Down,
{
}

} // verus!
