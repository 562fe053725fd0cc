//! Counting outcomes: per batch and over the run.

use vstd::prelude::*;
use crate::outcome::{OutcomeKind, RequestOutcome, StatusClass};

verus! {

/// How many of `outcomes` are counted as `kind`.
pub open spec fn count_kind(outcomes: Seq<RequestOutcome>, kind: OutcomeKind) -> nat
    decreases outcomes.len(),
{
    if outcomes.len() == 0 {
        0
    } else {
        count_kind(outcomes.drop_last(), kind) + if outcomes.last().kind() == kind {
            1nat
        } else {
            0nat
        }
    }
}

/// How many of `outcomes` have no response.
pub open spec fn count_failed(outcomes: Seq<RequestOutcome>) -> nat {
    count_kind(outcomes, OutcomeKind::Unanswered)
}

/// How many of `outcomes` have a response.
pub open spec fn count_completed(outcomes: Seq<RequestOutcome>) -> nat {
    count_kind(outcomes, OutcomeKind::Answered(StatusClass::Informational)) + count_kind(
        outcomes,
        OutcomeKind::Answered(StatusClass::Success),
    ) + count_kind(outcomes, OutcomeKind::Answered(StatusClass::Redirection)) + count_kind(
        outcomes,
        OutcomeKind::Answered(StatusClass::ClientError),
    ) + count_kind(outcomes, OutcomeKind::Answered(StatusClass::ServerError)) + count_kind(
        outcomes,
        OutcomeKind::Answered(StatusClass::Other),
    )
}

/// Every outcome is counted once: as completed or as failed.
pub proof fn lemma_counts_partition(outcomes: Seq<RequestOutcome>)
    ensures
        count_completed(outcomes) + count_failed(outcomes) == outcomes.len(),
    decreases outcomes.len(),
{
    if outcomes.len() > 0 {
        lemma_counts_partition(outcomes.drop_last());
    }
}

/// Counting over two runs of outcomes in a row adds up.
pub proof fn lemma_count_kind_concat(
    first: Seq<RequestOutcome>,
    second: Seq<RequestOutcome>,
    kind: OutcomeKind,
)
    ensures
        count_kind(first + second, kind) == count_kind(first, kind) + count_kind(second, kind),
    decreases second.len(),
{
    if second.len() > 0 {
        lemma_count_kind_concat(first, second.drop_last(), kind);
        assert((first + second).drop_last() =~= first + second.drop_last());
    }
}

/// Completions and failures of two runs of outcomes in a row add up.
pub proof fn lemma_counts_concat(first: Seq<RequestOutcome>, second: Seq<RequestOutcome>)
    ensures
        count_completed(first + second) == count_completed(first) + count_completed(second),
        count_failed(first + second) == count_failed(first) + count_failed(second),
{
    lemma_count_kind_concat(first, second, OutcomeKind::Unanswered);
    lemma_count_kind_concat(first, second, OutcomeKind::Answered(StatusClass::Informational));
    lemma_count_kind_concat(first, second, OutcomeKind::Answered(StatusClass::Success));
    lemma_count_kind_concat(first, second, OutcomeKind::Answered(StatusClass::Redirection));
    lemma_count_kind_concat(first, second, OutcomeKind::Answered(StatusClass::ClientError));
    lemma_count_kind_concat(first, second, OutcomeKind::Answered(StatusClass::ServerError));
    lemma_count_kind_concat(first, second, OutcomeKind::Answered(StatusClass::Other));
}

/// Responses counted by the class of their status code.
#[derive(Clone, Copy, Debug, PartialEq, Eq, Structural)]
pub struct StatusCounts {
    pub informational: usize,
    pub success: usize,
    pub redirection: usize,
    pub client_error: usize,
    pub server_error: usize,
    pub other: usize,
}

impl StatusCounts {
    /// The count kept for `class`.
    pub open spec fn of(self, class: StatusClass) -> nat {
        match class {
            StatusClass::Informational => self.informational as nat,
            StatusClass::Success => self.success as nat,
            StatusClass::Redirection => self.redirection as nat,
            StatusClass::ClientError => self.client_error as nat,
            StatusClass::ServerError => self.server_error as nat,
            StatusClass::Other => self.other as nat,
        }
    }

    /// All responses counted, whatever their class.
    pub open spec fn sum(self) -> nat {
        (self.informational + self.success + self.redirection + self.client_error
            + self.server_error + self.other) as nat
    }
}

/// The aggregate of one batch.
#[derive(Clone, Copy, Debug, PartialEq, Eq, Structural)]
pub struct BatchResult {
    /// The number of requests of the batch.
    pub requests_attempted: usize,
    /// The requests that got a response, by the class of its status.
    pub completions_by_status_class: StatusCounts,
    /// The requests that got no response.
    pub failures: usize,
}

impl BatchResult {
    /// Every attempt is counted once, as a response or as a failure.
    pub open spec fn wf(self) -> bool {
        self.completions_by_status_class.sum() + self.failures == self.requests_attempted
    }

    /// Whether this is the aggregate of exactly `outcomes`.
    pub open spec fn tallies(self, outcomes: Seq<RequestOutcome>) -> bool {
        &&& self.requests_attempted == outcomes.len()
        &&& self.failures == count_failed(outcomes)
        &&& self.counts_class(outcomes, StatusClass::Informational)
        &&& self.counts_class(outcomes, StatusClass::Success)
        &&& self.counts_class(outcomes, StatusClass::Redirection)
        &&& self.counts_class(outcomes, StatusClass::ClientError)
        &&& self.counts_class(outcomes, StatusClass::ServerError)
        &&& self.counts_class(outcomes, StatusClass::Other)
    }

    /// Whether the count kept for `class` is that of `outcomes`.
    pub open spec fn counts_class(self, outcomes: Seq<RequestOutcome>, class: StatusClass) -> bool {
        self.completions_by_status_class.of(class) == count_kind(
            outcomes,
            OutcomeKind::Answered(class),
        )
    }

    /// The number of responses, whatever their class.
    pub open spec fn completed(self) -> nat {
        self.completions_by_status_class.sum()
    }

    /// The number of responses, whatever their class.
    pub fn completions(&self) -> (n: usize)
        requires
            self.wf(),
        ensures
            n == self.completed(),
            n + self.failures == self.requests_attempted,
    {
        let counts = &self.completions_by_status_class;
        counts.informational + counts.success + counts.redirection + counts.client_error
            + counts.server_error + counts.other
    }

    /// The aggregate of no outcomes.
    pub fn empty() -> (result: BatchResult)
        ensures
            result.tallies(Seq::empty()),
            result.wf(),
    {
        BatchResult {
            requests_attempted: 0,
            completions_by_status_class: StatusCounts {
                informational: 0,
                success: 0,
                redirection: 0,
                client_error: 0,
                server_error: 0,
                other: 0,
            },
            failures: 0,
        }
    }

    /// Counts one more outcome.
    pub fn record(&mut self, outcome: RequestOutcome)
        requires
            old(self).wf(),
            old(self).requests_attempted < usize::MAX,
        ensures
            final(self).wf(),
            final(self).requests_attempted == old(self).requests_attempted + 1,
            final(self).failures == old(self).failures + (if outcome is Failed {
                1nat
            } else {
                0nat
            }),
            forall|class: StatusClass|
                #[trigger] final(self).completions_by_status_class.of(class) == old(self)
                    .completions_by_status_class.of(class) + (if outcome.kind()
                    == OutcomeKind::Answered(class) {
                    1nat
                } else {
                    0nat
                }),
            forall|outcomes: Seq<RequestOutcome>|
                old(self).tallies(outcomes) ==> final(self).tallies(
                    #[trigger] outcomes.push(outcome),
                ),
    {
        self.requests_attempted = self.requests_attempted + 1;
        match outcome.classify() {
            OutcomeKind::Unanswered => {
                self.failures = self.failures + 1;
            },
            OutcomeKind::Answered(StatusClass::Informational) => {
                self.completions_by_status_class.informational =
                    self.completions_by_status_class.informational + 1;
            },
            OutcomeKind::Answered(StatusClass::Success) => {
                self.completions_by_status_class.success = self.completions_by_status_class.success
                    + 1;
            },
            OutcomeKind::Answered(StatusClass::Redirection) => {
                self.completions_by_status_class.redirection =
                    self.completions_by_status_class.redirection + 1;
            },
            OutcomeKind::Answered(StatusClass::ClientError) => {
                self.completions_by_status_class.client_error =
                    self.completions_by_status_class.client_error + 1;
            },
            OutcomeKind::Answered(StatusClass::ServerError) => {
                self.completions_by_status_class.server_error =
                    self.completions_by_status_class.server_error + 1;
            },
            OutcomeKind::Answered(StatusClass::Other) => {
                self.completions_by_status_class.other = self.completions_by_status_class.other
                    + 1;
            },
        }
        assert forall|outcomes: Seq<RequestOutcome>| old(self).tallies(outcomes) implies self
            .tallies(#[trigger] outcomes.push(outcome)) by {
            assert(outcomes.push(outcome).drop_last() =~= outcomes);
        }
    }

    /// Folds the outcomes of a batch into its aggregate.
    pub fn from_outcomes(outcomes: &Vec<RequestOutcome>) -> (result: BatchResult)
        ensures
            result.tallies(outcomes@),
            result.wf(),
    {
        let mut result = BatchResult::empty();
        let mut i: usize = 0;
        while i < outcomes.len()
            invariant
                i <= outcomes.len(),
                result.wf(),
                result.tallies(outcomes@.take(i as int)),
            decreases outcomes.len() - i,
        {
            result.record(outcomes[i]);
            assert(outcomes@.take(i as int).push(outcomes@[i as int]) =~= outcomes@.take(
                i as int + 1,
            ));
            i = i + 1;
        }
        assert(outcomes@.take(i as int) =~= outcomes@);
        result
    }
}

/// The largest number of nanoseconds below one second.
pub const MAX_SUBSEC_NANOS: u32 = 999_999_999;

/// The counts of a whole run, and how long it took.
#[derive(Clone, Copy, Debug, PartialEq, Eq, Structural)]
pub struct RunSummary {
    /// The requests of all batches that are done.
    pub total_sent: usize,
    /// Those of them that got a response.
    pub total_completed: usize,
    /// Those of them that got none.
    pub total_failed: usize,
    /// Whole seconds of the run's duration.
    pub elapsed_secs: u64,
    /// The rest of the run's duration, in nanoseconds.
    pub elapsed_nanos: u32,
}

impl RunSummary {
    /// Every request sent is counted once, and the duration is in normal
    /// form.
    pub open spec fn wf(self) -> bool {
        &&& self.total_completed + self.total_failed == self.total_sent
        &&& self.elapsed_nanos <= MAX_SUBSEC_NANOS
    }

    /// Whether the counts are those of exactly `outcomes`.
    pub open spec fn summarizes(self, outcomes: Seq<RequestOutcome>) -> bool {
        &&& self.total_sent == outcomes.len()
        &&& self.total_completed == count_completed(outcomes)
        &&& self.total_failed == count_failed(outcomes)
    }

    /// The summary of a run that has sent nothing yet.
    pub fn new() -> (summary: RunSummary)
        ensures
            summary.wf(),
            summary.summarizes(Seq::empty()),
            summary.elapsed_secs == 0,
            summary.elapsed_nanos == 0,
    {
        RunSummary {
            total_sent: 0,
            total_completed: 0,
            total_failed: 0,
            elapsed_secs: 0,
            elapsed_nanos: 0,
        }
    }

    /// Adds the aggregate of a finished batch to the run's counts.
    pub fn absorb(&mut self, batch: &BatchResult)
        requires
            old(self).wf(),
            batch.wf(),
            old(self).total_sent + batch.requests_attempted <= usize::MAX,
        ensures
            final(self).wf(),
            final(self).total_sent == old(self).total_sent + batch.requests_attempted,
            final(self).total_completed == old(self).total_completed + batch.completed(),
            final(self).total_failed == old(self).total_failed + batch.failures,
            final(self).elapsed_secs == old(self).elapsed_secs,
            final(self).elapsed_nanos == old(self).elapsed_nanos,
            forall|before: Seq<RequestOutcome>, outcomes: Seq<RequestOutcome>|
                old(self).summarizes(before) && batch.tallies(outcomes) ==> final(self).summarizes(
                    #[trigger] (before + outcomes),
                ),
    {
        let completed = batch.completions();
        self.total_sent = self.total_sent + batch.requests_attempted;
        self.total_completed = self.total_completed + completed;
        self.total_failed = self.total_failed + batch.failures;
        assert forall|before: Seq<RequestOutcome>, outcomes: Seq<RequestOutcome>|
            old(self).summarizes(before) && batch.tallies(outcomes) implies self.summarizes(
            #[trigger] (before + outcomes),
        ) by {
            lemma_counts_concat(before, outcomes);
        }
    }

    /// The summary with the run's duration filled in.
    pub fn finalize(self, elapsed_secs: u64, elapsed_nanos: u32) -> (summary: RunSummary)
        requires
            elapsed_nanos <= MAX_SUBSEC_NANOS,
        ensures
            summary == (RunSummary { elapsed_secs, elapsed_nanos, ..self }),
    {
        RunSummary {
            total_sent: self.total_sent,
            total_completed: self.total_completed,
            total_failed: self.total_failed,
            elapsed_secs,
            elapsed_nanos,
        }
    }
}

} // verus!
