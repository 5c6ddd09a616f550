//! What a run reports: an outcome for each URL source, and the state of the
//! run as a whole.

use crate::errors::FailureClass;
use vstd::prelude::*;

verus! {

/// The three objects that are kept for a URL source.
#[derive(Clone, Copy, Debug)]
pub enum EntityKind {
    Item,
    Scenario,
    Trigger,
}

/// What became of one object of a URL source.
#[derive(Clone, Copy, Debug)]
pub enum EntityOutcome {
    /// It was there already; nothing was created.
    Present,
    /// It was missing and has been created.
    Created,
    /// It was missing and creating it failed.
    Failed(FailureClass),
}

/// What became of one URL source.
#[derive(Clone, Copy, Debug)]
pub enum SourceOutcome {
    /// Its host is not known to the server; nothing was looked up or
    /// created for it.
    Skipped,
    /// Its host is known; each of its three objects was looked up and, where
    /// missing, created.
    Processed { item: EntityOutcome, scenario: EntityOutcome, trigger: EntityOutcome },
}

/// The state of a run that went through all its sources.
#[derive(Clone, Copy, Debug)]
pub enum RunStatus {
    /// Every source was processed and nothing failed.
    Success,
    /// Nothing failed, but a source was skipped.
    Partial,
    /// Something could not be created.
    Failed,
}

/// The exit code of a run without failure.
pub const OK_EXIT_CODE: i32 = 0;

/// The exit code of a run in which something failed.
pub const ERROR_EXIT_CODE: i32 = 1;

/// Creating the object failed.
pub open spec fn entity_failed(outcome: EntityOutcome) -> bool {
    outcome is Failed
}

/// One of the source's objects could not be created.
pub open spec fn source_failed(outcome: SourceOutcome) -> bool {
    outcome matches SourceOutcome::Processed { item, scenario, trigger } && (entity_failed(item)
        || entity_failed(scenario) || entity_failed(trigger))
}

/// Some source among the outcomes failed.
pub open spec fn any_failed(outcomes: Seq<SourceOutcome>) -> bool {
    exists|i: int| 0 <= i < outcomes.len() && source_failed(#[trigger] outcomes[i])
}

/// Some source among the outcomes was skipped.
pub open spec fn any_skipped(outcomes: Seq<SourceOutcome>) -> bool {
    exists|i: int| 0 <= i < outcomes.len() && #[trigger] outcomes[i] is Skipped
}

/// The state of a run with these outcomes: failed as soon as one source
/// failed, else partial as soon as one was skipped, else a success.
pub open spec fn run_status(outcomes: Seq<SourceOutcome>) -> RunStatus {
    if any_failed(outcomes) {
        RunStatus::Failed
    } else if any_skipped(outcomes) {
        RunStatus::Partial
    } else {
        RunStatus::Success
    }
}

/// The exit code for a run's state: an error only where something failed.
pub open spec fn status_exit_code(status: RunStatus) -> i32 {
    match status {
        RunStatus::Failed => ERROR_EXIT_CODE,
        _ => OK_EXIT_CODE,
    }
}

impl EntityOutcome {
    /// Whether creating the object failed.
    pub fn is_failed(&self) -> (failed: bool)
        ensures
            failed == entity_failed(*self),
    {
        match self {
            EntityOutcome::Failed(_) => true,
            _ => false,
        }
    }
}

impl SourceOutcome {
    /// Whether one of the source's objects could not be created.
    pub fn is_failed(&self) -> (failed: bool)
        ensures
            failed == source_failed(*self),
    {
        match self {
            SourceOutcome::Skipped => false,
            SourceOutcome::Processed { item, scenario, trigger } => item.is_failed()
                || scenario.is_failed() || trigger.is_failed(),
        }
    }

    /// Whether the source was skipped.
    pub fn is_skipped(&self) -> (skipped: bool)
        ensures
            skipped == (*self is Skipped),
    {
        match self {
            SourceOutcome::Skipped => true,
            _ => false,
        }
    }
}

impl RunStatus {
    /// The process exit code for this state.
    pub fn exit_code(&self) -> (code: i32)
        ensures
            code == status_exit_code(*self),
    {
        match self {
            RunStatus::Failed => ERROR_EXIT_CODE,
            _ => OK_EXIT_CODE,
        }
    }

    /// Whether the run is to be reported as an error.
    pub fn is_failure(&self) -> (failure: bool)
        ensures
            failure == (*self is Failed),
    {
        match self {
            RunStatus::Failed => true,
            _ => false,
        }
    }
}

/// How many sources of a run came to what.
#[derive(Clone, Copy, Debug)]
pub struct RunSummary {
    /// The sources that were worked through.
    pub sources: usize,
    /// Those whose host is unknown.
    pub skipped: usize,
    /// Those for which something could not be created.
    pub failed: usize,
    /// Those for which everything is in place.
    pub reconciled: usize,
}

/// The number of skipped sources among the outcomes.
pub open spec fn count_skipped(outcomes: Seq<SourceOutcome>) -> nat
    decreases outcomes.len(),
{
    if outcomes.len() == 0 {
        0
    } else {
        count_skipped(outcomes.drop_last()) + if outcomes.last() is Skipped {
            1nat
        } else {
            0nat
        }
    }
}

/// The number of failed sources among the outcomes.
pub open spec fn count_failed(outcomes: Seq<SourceOutcome>) -> nat
    decreases outcomes.len(),
{
    if outcomes.len() == 0 {
        0
    } else {
        count_failed(outcomes.drop_last()) + if source_failed(outcomes.last()) {
            1nat
        } else {
            0nat
        }
    }
}

/// The counts add up, and they agree with the state of the run: it is
/// failed exactly when a source failed, else partial exactly when one was
/// skipped.
pub proof fn lemma_counts_match_status(outcomes: Seq<SourceOutcome>)
    ensures
        count_skipped(outcomes) + count_failed(outcomes) <= outcomes.len(),
        any_failed(outcomes) <==> count_failed(outcomes) > 0,
        any_skipped(outcomes) <==> count_skipped(outcomes) > 0,
    decreases outcomes.len(),
{
    if outcomes.len() > 0 {
        let front = outcomes.drop_last();
        let last = outcomes.len() - 1;
        lemma_counts_match_status(front);
        if any_failed(front) {
            let i = choose|i: int| 0 <= i < front.len() && source_failed(#[trigger] front[i]);
            assert(source_failed(outcomes[i]));
        }
        if any_skipped(front) {
            let i = choose|i: int| 0 <= i < front.len() && #[trigger] front[i] is Skipped;
            assert(outcomes[i] is Skipped);
        }
        if any_failed(outcomes) && !source_failed(outcomes[last]) {
            let i = choose|i: int| 0 <= i < outcomes.len() && source_failed(#[trigger] outcomes[i]);
            assert(source_failed(front[i]));
        }
        if any_skipped(outcomes) && !(outcomes[last] is Skipped) {
            let i = choose|i: int| 0 <= i < outcomes.len() && #[trigger] outcomes[i] is Skipped;
            assert(front[i] is Skipped);
        }
        if source_failed(outcomes[last]) {
            assert(source_failed(outcomes[last]));
        }
        if outcomes[last] is Skipped {
            assert(outcomes[last] is Skipped);
        }
    }
}

/// Counts the outcomes of a run.
pub fn summarize(outcomes: &Vec<SourceOutcome>) -> (summary: RunSummary)
    ensures
        summary.sources == outcomes@.len(),
        summary.skipped == count_skipped(outcomes@),
        summary.failed == count_failed(outcomes@),
        summary.reconciled == outcomes@.len() - count_skipped(outcomes@) - count_failed(
            outcomes@,
        ),
{
    let mut skipped: usize = 0;
    let mut failed: usize = 0;
    let mut i: usize = 0;
    while i < outcomes.len()
        invariant
            i <= outcomes.len(),
            skipped == count_skipped(outcomes@.take(i as int)),
            failed == count_failed(outcomes@.take(i as int)),
            skipped + failed <= i,
        decreases outcomes.len() - i,
    {
        proof {
            assert(outcomes@.take(i + 1).drop_last() =~= outcomes@.take(i as int));
            assert(outcomes@.take(i + 1).last() == outcomes@[i as int]);
        }
        if outcomes[i].is_skipped() {
            skipped = skipped + 1;
        }
        if outcomes[i].is_failed() {
            failed = failed + 1;
        }
        i = i + 1;
    }
    assert(outcomes@.take(outcomes.len() as int) =~= outcomes@);
    RunSummary {
        sources: outcomes.len(),
        skipped,
        failed,
        reconciled: outcomes.len() - skipped - failed,
    }
}

/// Derives the state of a run from the outcomes of its sources.
pub fn status_of(outcomes: &Vec<SourceOutcome>) -> (status: RunStatus)
    ensures
        status == run_status(outcomes@),
{
    let mut failed = false;
    let mut skipped = false;
    let mut i: usize = 0;
    while i < outcomes.len()
        invariant
            i <= outcomes.len(),
            failed == any_failed(outcomes@.take(i as int)),
            skipped == any_skipped(outcomes@.take(i as int)),
        decreases outcomes.len() - i,
    {
        let ghost seen = outcomes@.take(i as int);
        let ghost more = outcomes@.take(i + 1);
        let here_failed = outcomes[i].is_failed();
        let here_skipped = outcomes[i].is_skipped();
        proof {
            assert(more[i as int] == outcomes@[i as int]);
            assert forall|k: int| 0 <= k < i implies more[k] == seen[k] by {}
            if any_failed(seen) {
                let k = choose|k: int| 0 <= k < seen.len() && source_failed(#[trigger] seen[k]);
                assert(source_failed(more[k]));
            }
            if any_skipped(seen) {
                let k = choose|k: int| 0 <= k < seen.len() && #[trigger] seen[k] is Skipped;
                assert(more[k] is Skipped);
            }
            if any_failed(more) && !here_failed {
                let k = choose|k: int| 0 <= k < more.len() && source_failed(#[trigger] more[k]);
                assert(source_failed(seen[k]));
            }
            if any_skipped(more) && !here_skipped {
                let k = choose|k: int| 0 <= k < more.len() && #[trigger] more[k] is Skipped;
                assert(seen[k] is Skipped);
            }
        }
        failed = failed || here_failed;
        skipped = skipped || here_skipped;
        i = i + 1;
    }
    assert(outcomes@.take(outcomes.len() as int) =~= outcomes@);
    if failed {
        RunStatus::Failed
    } else if skipped {
        RunStatus::Partial
    } else {
        RunStatus::Success
    }
}

} // verus!
