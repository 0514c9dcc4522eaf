//! The orchestrator: one cycle over every configured host. The hosts are
//! worked on side by side by the caller; what came back from each is put
//! together here, so that no host's failure touches another's outcome.

use crate::config::TargetIlo;
use crate::controller::{ControlOutcome, FailureCause};
use vstd::prelude::*;

verus! {

/// The outcome of one host's cycle.
#[derive(Debug, Clone)]
pub struct HostOutcome {
    /// The host, as configured.
    pub host: String,
    /// How its cycle ended.
    pub outcome: ControlOutcome,
}

/// The totals of one cycle.
#[derive(Debug, Clone, Copy, PartialEq, Eq, Structural)]
pub struct CycleSummary {
    /// Hosts whose cycle went through.
    pub succeeded: usize,
    /// Hosts whose cycle failed, whatever the cause.
    pub failed: usize,
}

/// What a unit of work that ended without an outcome counts as.
pub open spec fn fatal() -> ControlOutcome {
    ControlOutcome::Failure { cause: FailureCause::Fatal, executed: 0 }
}

/// The outcome recorded for the host at `index`: what its unit of work
/// returned, or fatal where the unit broke down or never reported.
pub open spec fn outcome_at(joined: Seq<Option<ControlOutcome>>, index: int) -> ControlOutcome {
    if 0 <= index < joined.len() {
        match joined[index] {
            Some(outcome) => outcome,
            None => fatal(),
        }
    } else {
        fatal()
    }
}

/// The number of successes among `outcomes`.
pub open spec fn successes(outcomes: Seq<HostOutcome>) -> nat
    decreases outcomes.len(),
{
    if outcomes.len() == 0 {
        0
    } else {
        successes(outcomes.drop_last()) + if outcomes.last().outcome is Success {
            1nat
        } else {
            0nat
        }
    }
}

/// Puts the cycle's result together: one entry per configured host, in
/// configuration order, each with what that host's own unit of work returned.
/// `joined[i]` is `None` where the unit of host `i` broke down.
pub fn run_cycle(targets: &Vec<TargetIlo>, joined: &Vec<Option<ControlOutcome>>) -> (report: Vec<
    HostOutcome,
>)
    ensures
        report@.len() == targets@.len(),
        forall|i: int|
            0 <= i < targets@.len() ==> (#[trigger] report@[i]).host@ == targets@[i].host@
                && report@[i].outcome == outcome_at(joined@, i),
{
    let mut report: Vec<HostOutcome> = Vec::new();
    let mut at: usize = 0;
    while at < targets.len()
        invariant
            at <= targets@.len(),
            report@.len() == at,
            forall|i: int|
                0 <= i < at ==> (#[trigger] report@[i]).host@ == targets@[i].host@
                    && report@[i].outcome == outcome_at(joined@, i),
        decreases targets@.len() - at,
    {
        let outcome = if at < joined.len() {
            match joined[at] {
                Some(outcome) => outcome,
                None => ControlOutcome::Failure { cause: FailureCause::Fatal, executed: 0 },
            }
        } else {
            ControlOutcome::Failure { cause: FailureCause::Fatal, executed: 0 }
        };
        report.push(HostOutcome { host: targets[at].host.clone(), outcome });
        at += 1;
    }
    report
}

/// Counts the successes and the failures of a cycle.
pub fn summarize(report: &Vec<HostOutcome>) -> (summary: CycleSummary)
    ensures
        summary.succeeded == successes(report@),
        summary.succeeded + summary.failed == report@.len(),
{
    let mut succeeded: usize = 0;
    let mut failed: usize = 0;
    let mut at: usize = 0;
    while at < report.len()
        invariant
            at <= report@.len(),
            succeeded == successes(report@.take(at as int)),
            succeeded + failed == at,
        decreases report@.len() - at,
    {
        assert(report@.take(at + 1).drop_last() =~= report@.take(at as int));
        match report[at].outcome {
            ControlOutcome::Success { .. } => {
                succeeded += 1;
            },
            ControlOutcome::Failure { .. } => {
                failed += 1;
            },
        }
        at += 1;
    }
    assert(report@.take(at as int) =~= report@);
    CycleSummary { succeeded, failed }
}

/// The outcome recorded for a host depends on that host's unit of work alone:
/// replacing what any other host returned leaves it as it was.
pub proof fn lemma_hosts_are_isolated(
    joined: Seq<Option<ControlOutcome>>,
    other: int,
    replacement: Option<ControlOutcome>,
    host: int,
)
    requires
        0 <= other < joined.len(),
        host != other,
    ensures
        outcome_at(joined.update(other, replacement), host) == outcome_at(joined, host),
{
}

} // verus!
