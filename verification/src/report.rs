use vstd::prelude::*;

verus! {

/// The stage at which the handling of one file failed.
#[derive(Clone, Copy, Debug, PartialEq, Eq, Structural)]
pub enum FailureStage {
    Stat,
    DirectoryCreate,
    Transfer,
    SourceCleanup,
}

/// The result of handling one file (or of listing one directory).
/// `destination_written` records whether the destination file holds the data
/// despite the failure, which distinguishes a source-cleanup failure from a
/// transfer that never wrote the destination.
#[derive(Clone, Debug)]
pub enum OutcomeKind {
    Succeeded,
    Failed { reason: String, stage: FailureStage, destination_written: bool },
}

/// The per-file record of a transfer attempt: the source path it is about,
/// and how the attempt ended.
#[derive(Clone, Debug)]
pub struct TransferOutcome {
    pub path: String,
    pub kind: OutcomeKind,
}

/// How many outcomes of `s` succeeded.
pub open spec fn count_succeeded(s: Seq<TransferOutcome>) -> int
    decreases s.len(),
{
    if s.len() == 0 {
        0
    } else {
        count_succeeded(s.drop_last()) + if s.last().kind is Succeeded {
            1int
        } else {
            0int
        }
    }
}

/// How many outcomes of `s` failed.
pub open spec fn count_failed(s: Seq<TransferOutcome>) -> int
    decreases s.len(),
{
    if s.len() == 0 {
        0
    } else {
        count_failed(s.drop_last()) + if s.last().kind is Succeeded {
            0int
        } else {
            1int
        }
    }
}

/// Every outcome either succeeded or failed, so the two counts are
/// non-negative and sum to the length of the report.
pub proof fn lemma_counts_complete(s: Seq<TransferOutcome>)
    ensures
        count_succeeded(s) + count_failed(s) == s.len(),
        0 <= count_succeeded(s) <= s.len(),
        0 <= count_failed(s) <= s.len(),
    decreases s.len(),
{
    if s.len() > 0 {
        lemma_counts_complete(s.drop_last());
    }
}

/// The ordered outcomes of one job run, with aggregate counts.
#[derive(Clone, Debug)]
pub struct TransferReport {
    pub outcomes: Vec<TransferOutcome>,
    pub succeeded: usize,
    pub failed: usize,
}

impl TransferReport {
    /// The aggregate counts agree with the recorded outcomes.
    pub open spec fn wf(&self) -> bool {
        &&& self.succeeded == count_succeeded(self.outcomes@)
        &&& self.failed == count_failed(self.outcomes@)
    }

    /// An empty report.
    pub fn new() -> (r: TransferReport)
        ensures
            r.wf(),
            r.outcomes@.len() == 0,
    {
        TransferReport { outcomes: Vec::new(), succeeded: 0, failed: 0 }
    }

    /// Appends one outcome and keeps the counts in step.
    pub fn record(&mut self, outcome: TransferOutcome)
        requires
            old(self).wf(),
        ensures
            final(self).wf(),
            final(self).outcomes@ == old(self).outcomes@.push(outcome),
    {
        proof {
            lemma_counts_complete(self.outcomes@);
        }
        let succeeded = match &outcome.kind {
            OutcomeKind::Succeeded => true,
            OutcomeKind::Failed { .. } => false,
        };
        self.outcomes.push(outcome);
        let n = self.outcomes.len();
        proof {
            assert(self.outcomes@.drop_last() =~= old(self).outcomes@);
            assert(old(self).outcomes@.len() == n - 1);
        }
        if succeeded {
            self.succeeded = self.succeeded + 1;
        } else {
            self.failed = self.failed + 1;
        }
    }
}

/// Law: failure isolation. In a well-formed report in which exactly one
/// outcome failed, every other outcome succeeded: a batch of `N` outcomes
/// shows `N - 1` successes and `1` failure.
pub proof fn lemma_single_failure_isolated(r: TransferReport)
    requires
        r.wf(),
        count_failed(r.outcomes@) == 1,
    ensures
        r.succeeded == r.outcomes@.len() - 1,
        r.failed == 1,
{
    lemma_counts_complete(r.outcomes@);
}

} // verus!
