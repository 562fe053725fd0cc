//! The order of a run: which batch may start, and when.
//!
//! The coordinator performs no request. Its caller asks what to do next,
//! launches the batch it is handed, and reports each outcome as it arrives.
//! A new batch is handed out only when every request of the one before has
//! an outcome, so at most `batch_size` requests are in flight at a time.

use vstd::prelude::*;
use crate::config::RunConfig;
use crate::outcome::RequestOutcome;
use crate::plan::{
    attempted_in, batch_at, batch_count, batch_len, batch_of_run, lemma_attempted_in,
    lemma_batch_count_is_ceiling, lemma_batch_of_run, lemma_batch_sizes, num_batches, Batch,
};
use crate::summary::{count_completed, count_failed, lemma_counts_partition, BatchResult, RunSummary};

verus! {

/// What the caller of a coordinator is to do next.
#[derive(Clone, Copy, Debug, PartialEq, Eq, Structural)]
pub enum Action {
    /// Start every request of this batch.
    Launch(Batch),
    /// Requests of the batch in flight have no outcome yet: report them.
    Await { pending: usize },
    /// Every batch is done.
    Finished,
}

/// Why an outcome was not recorded.
#[derive(Clone, Copy, Debug, PartialEq, Eq, Structural)]
pub enum RecordError {
    /// No batch is in flight.
    NoBatchInFlight,
    /// The sequence id is not one of the batch in flight.
    OutsideBatch,
    /// The request already has an outcome.
    AlreadyRecorded,
}

/// How many of `slots` are still empty.
pub open spec fn count_open(slots: Seq<Option<RequestOutcome>>) -> nat
    decreases slots.len(),
{
    if slots.len() == 0 {
        0
    } else {
        count_open(slots.drop_last()) + if slots.last() is None {
            1nat
        } else {
            0nat
        }
    }
}

/// The outcomes held by `slots`, in order.
pub open spec fn filled(slots: Seq<Option<RequestOutcome>>) -> Seq<RequestOutcome> {
    Seq::new(slots.len(), |i: int| slots[i].unwrap())
}

/// A run in progress, as a mathematical value.
pub ghost struct RunState {
    /// The number of requests of the run.
    pub total: nat,
    /// The largest number of requests in flight at a time.
    pub batch_size: nat,
    /// The number of batches launched so far.
    pub launched: nat,
    /// The batch in flight, one slot for each of its requests in the order of
    /// their sequence ids; empty while no batch is in flight.
    pub slots: Seq<Option<RequestOutcome>>,
    /// The outcomes of all batches that are done: `settled[id]` is the
    /// outcome of the request with sequence id `id`.
    pub settled: Seq<RequestOutcome>,
}

impl RunState {
    /// Whether a batch is in flight.
    pub open spec fn in_flight(self) -> bool {
        self.slots.len() > 0
    }

    /// The number of requests in flight that have no outcome yet.
    pub open spec fn pending(self) -> nat {
        count_open(self.slots)
    }

    /// The number of batches that are done.
    pub open spec fn batches_done(self) -> nat {
        if self.in_flight() {
            (self.launched - 1) as nat
        } else {
            self.launched
        }
    }

    /// Whether every batch is done.
    pub open spec fn finished(self) -> bool {
        !self.in_flight() && self.launched == batch_count(self.total, self.batch_size)
    }

    /// What holds of every state that a run passes through. The settled
    /// outcomes are those of the batches that are done, no more and no
    /// fewer. A batch in flight is the one launched last, has a slot for
    /// each of its requests, and at least one of them is open.
    pub open spec fn wf(self) -> bool {
        &&& self.batch_size >= 1
        &&& self.total <= usize::MAX
        &&& self.launched <= batch_count(self.total, self.batch_size)
        &&& self.settled.len() == attempted_in(self.total, self.batch_size, self.batches_done())
        &&& self.in_flight() ==> {
            &&& self.launched >= 1
            &&& self.slots.len() == batch_len(
                self.total,
                self.batch_size,
                (self.launched - 1) as nat,
            )
            &&& self.pending() > 0
        }
    }

    /// A run of which nothing has been launched.
    pub open spec fn init(total: nat, batch_size: nat) -> RunState {
        RunState { total, batch_size, launched: 0, slots: Seq::empty(), settled: Seq::empty() }
    }

    /// What the caller is to do in this state.
    pub open spec fn next_action(self) -> Action {
        if self.in_flight() {
            Action::Await { pending: self.pending() as usize }
        } else if self.launched < batch_count(self.total, self.batch_size) {
            Action::Launch(batch_of_run(self.total, self.batch_size, self.launched))
        } else {
            Action::Finished
        }
    }

    /// The state after the caller has been told what to do: a batch that was
    /// handed out is in flight, with every slot empty.
    pub open spec fn after_poll(self) -> RunState {
        if !self.in_flight() && self.launched < batch_count(self.total, self.batch_size) {
            RunState {
                launched: self.launched + 1,
                slots: Seq::new(
                    batch_len(self.total, self.batch_size, self.launched),
                    |i: int| None,
                ),
                ..self
            }
        } else {
            self
        }
    }

    /// Whether an outcome for `sequence_id` can be recorded in this state.
    pub open spec fn accepts(self, sequence_id: nat) -> Result<(), RecordError> {
        if !self.in_flight() {
            Err(RecordError::NoBatchInFlight)
        } else if !(self.settled.len() <= sequence_id < self.settled.len() + self.slots.len()) {
            Err(RecordError::OutsideBatch)
        } else if self.slots[sequence_id - self.settled.len()] is Some {
            Err(RecordError::AlreadyRecorded)
        } else {
            Ok(())
        }
    }

    /// The slots of the batch in flight once `outcome` is recorded for
    /// `sequence_id`.
    pub open spec fn slots_with(self, sequence_id: nat, outcome: RequestOutcome) -> Seq<
        Option<RequestOutcome>,
    > {
        self.slots.update(sequence_id - self.settled.len(), Some(outcome))
    }

    /// Whether recording an outcome for `sequence_id` completes the batch in
    /// flight.
    pub open spec fn closes_batch(self, sequence_id: nat) -> bool {
        self.accepts(sequence_id) is Ok && self.pending() == 1
    }

    /// The state after an outcome was reported. A report that is not
    /// accepted changes nothing. The outcome that completes a batch settles
    /// the whole batch, after which no batch is in flight.
    pub open spec fn after_record(self, sequence_id: nat, outcome: RequestOutcome) -> RunState {
        if self.accepts(sequence_id) is Err {
            self
        } else if self.closes_batch(sequence_id) {
            RunState {
                slots: Seq::empty(),
                settled: self.settled + filled(self.slots_with(sequence_id, outcome)),
                ..self
            }
        } else {
            RunState { slots: self.slots_with(sequence_id, outcome), ..self }
        }
    }
}

/// Filling an empty slot leaves one fewer open.
pub proof fn lemma_fill_slot(slots: Seq<Option<RequestOutcome>>, i: int, outcome: RequestOutcome)
    requires
        0 <= i < slots.len(),
        slots[i] is None,
    ensures
        count_open(slots.update(i, Some(outcome))) + 1 == count_open(slots),
    decreases slots.len(),
{
    let after = slots.update(i, Some(outcome));
    if i == slots.len() - 1 {
        assert(after.drop_last() =~= slots.drop_last());
    } else {
        lemma_fill_slot(slots.drop_last(), i, outcome);
        assert(after.drop_last() =~= slots.drop_last().update(i, Some(outcome)));
    }
}

/// Where no slot is open, every slot holds an outcome.
pub proof fn lemma_none_open(slots: Seq<Option<RequestOutcome>>)
    requires
        count_open(slots) == 0,
    ensures
        forall|i: int| 0 <= i < slots.len() ==> (#[trigger] slots[i]) is Some,
    decreases slots.len(),
{
    if slots.len() > 0 {
        lemma_none_open(slots.drop_last());
        assert forall|i: int| 0 <= i < slots.len() implies (#[trigger] slots[i]) is Some by {
            if i < slots.len() - 1 {
                assert(slots.drop_last()[i] == slots[i]);
            }
        }
    }
}

/// Of freshly made slots every one is open.
pub proof fn lemma_all_open(n: nat)
    ensures
        count_open(Seq::new(n, |i: int| None::<RequestOutcome>)) == n,
    decreases n,
{
    let slots = Seq::new(n, |i: int| None::<RequestOutcome>);
    if n > 0 {
        lemma_all_open((n - 1) as nat);
        assert(slots.drop_last() =~= Seq::new((n - 1) as nat, |i: int| None::<RequestOutcome>));
    }
}

/// No more slots are open than there are slots.
pub proof fn lemma_open_bounded(slots: Seq<Option<RequestOutcome>>)
    ensures
        count_open(slots) <= slots.len(),
    decreases slots.len(),
{
    if slots.len() > 0 {
        lemma_open_bounded(slots.drop_last());
    }
}

/// A fresh run is well formed.
pub proof fn lemma_init_wf(total: nat, batch_size: nat)
    requires
        batch_size >= 1,
        total <= usize::MAX,
    ensures
        RunState::init(total, batch_size).wf(),
{
}

/// Asking what to do next keeps a run well formed.
pub proof fn lemma_poll_keeps_wf(state: RunState)
    requires
        state.wf(),
    ensures
        state.after_poll().wf(),
{
    if !state.in_flight() && state.launched < batch_count(state.total, state.batch_size) {
        lemma_batch_sizes(state.total, state.batch_size, state.launched);
        lemma_all_open(batch_len(state.total, state.batch_size, state.launched));
    }
}

/// Reporting an outcome keeps a run well formed, whether it is accepted or
/// not.
pub proof fn lemma_record_keeps_wf(state: RunState, sequence_id: nat, outcome: RequestOutcome)
    requires
        state.wf(),
    ensures
        state.after_record(sequence_id, outcome).wf(),
{
    if state.accepts(sequence_id) is Ok {
        let i = sequence_id - state.settled.len();
        lemma_fill_slot(state.slots, i, outcome);
    }
}

/// The barrier between batches. While a batch is in flight no batch is
/// handed out, and asking changes nothing. A batch is handed out only in a
/// state in which every request with a smaller sequence id has its outcome
/// settled.
pub proof fn lemma_barrier(state: RunState)
    requires
        state.wf(),
    ensures
        state.in_flight() ==> state.next_action() is Await && state.after_poll() == state,
        state.next_action() is Launch ==> !state.in_flight() && state.pending() == 0,
        state.next_action() matches Action::Launch(batch) ==> batch.is_batch_of(
            state.total,
            state.batch_size,
            state.launched,
        ) && batch.start_id == state.settled.len() && batch.count >= 1,
{
    if !state.in_flight() && state.launched < batch_count(state.total, state.batch_size) {
        lemma_batch_of_run(state.total, state.batch_size, state.launched);
        lemma_attempted_in(state.total, state.batch_size, state.launched);
        lemma_batch_sizes(state.total, state.batch_size, state.launched);
    }
}

/// At no time are more than `batch_size` requests in flight.
pub proof fn lemma_in_flight_bounded(state: RunState)
    requires
        state.wf(),
    ensures
        state.pending() <= state.slots.len() <= state.batch_size,
{
    lemma_open_bounded(state.slots);
    if state.in_flight() {
        lemma_batch_sizes(state.total, state.batch_size, (state.launched - 1) as nat);
    }
}

/// A failure is isolated. Whether an outcome is accepted, how many requests
/// are still pending after it, how many batches were launched and what the
/// caller is told to do next do not depend on what the outcome is: a failed
/// request holds up neither the requests beside it nor the batches after it.
pub proof fn lemma_failure_is_isolated(
    state: RunState,
    sequence_id: nat,
    one: RequestOutcome,
    other: RequestOutcome,
)
    requires
        state.wf(),
    ensures
        state.after_record(sequence_id, one).pending() == state.after_record(
            sequence_id,
            other,
        ).pending(),
        state.after_record(sequence_id, one).launched == state.after_record(
            sequence_id,
            other,
        ).launched,
        state.after_record(sequence_id, one).settled.len() == state.after_record(
            sequence_id,
            other,
        ).settled.len(),
        state.after_record(sequence_id, one).next_action() == state.after_record(
            sequence_id,
            other,
        ).next_action(),
{
    if state.accepts(sequence_id) is Ok {
        let i = sequence_id - state.settled.len();
        lemma_fill_slot(state.slots, i, one);
        lemma_fill_slot(state.slots, i, other);
    }
}

/// Within a batch the order of the reports makes no difference: two
/// outcomes for different requests, reported one way round or the other,
/// leave the same state, and so the same aggregate of the batch.
pub proof fn lemma_order_of_reports(
    state: RunState,
    one_id: nat,
    one: RequestOutcome,
    other_id: nat,
    other: RequestOutcome,
)
    requires
        state.wf(),
        one_id != other_id,
    ensures
        state.after_record(one_id, one).after_record(other_id, other) == state.after_record(
            other_id,
            other,
        ).after_record(one_id, one),
{
    let i = one_id - state.settled.len();
    let j = other_id - state.settled.len();
    let first = state.after_record(one_id, one);
    let second = state.after_record(other_id, other);
    if state.accepts(one_id) is Ok && state.accepts(other_id) is Ok {
        lemma_fill_slot(state.slots, i, one);
        lemma_fill_slot(state.slots, j, other);
        lemma_fill_slot(state.slots.update(i, Some(one)), j, other);
        lemma_fill_slot(state.slots.update(j, Some(other)), i, one);
        assert(state.slots.update(i, Some(one)).update(j, Some(other)) =~= state.slots.update(
            j,
            Some(other),
        ).update(i, Some(one)));
        assert(first.accepts(other_id) is Ok);
        assert(second.accepts(one_id) is Ok);
    } else if state.accepts(one_id) is Ok {
        lemma_fill_slot(state.slots, i, one);
        assert(first.accepts(other_id) is Err);
    } else if state.accepts(other_id) is Ok {
        lemma_fill_slot(state.slots, j, other);
        assert(second.accepts(one_id) is Err);
    }
}

/// At the end of a run every request has been sent once and has one
/// outcome, a response or a failure.
pub proof fn lemma_finished_run(state: RunState)
    requires
        state.wf(),
        state.finished(),
    ensures
        state.settled.len() == state.total,
        count_completed(state.settled) + count_failed(state.settled) == state.total,
        state.next_action() == Action::Finished,
{
    lemma_attempted_in(state.total, state.batch_size, state.launched);
    lemma_counts_partition(state.settled);
}

/// The coordinator of one run.
pub struct Coordinator {
    total_requests: usize,
    batch_size: usize,
    launched: usize,
    slots: Vec<Option<RequestOutcome>>,
    pending: usize,
    summary: RunSummary,
    settled: Ghost<Seq<RequestOutcome>>,
}

impl View for Coordinator {
    type V = RunState;

    closed spec fn view(&self) -> RunState {
        RunState {
            total: self.total_requests as nat,
            batch_size: self.batch_size as nat,
            launched: self.launched as nat,
            slots: self.slots@,
            settled: self.settled@,
        }
    }
}

impl Coordinator {
    /// The state is a well-formed run, and the counts kept are those of the
    /// settled outcomes.
    pub closed spec fn wf(&self) -> bool {
        &&& self@.wf()
        &&& self.pending == self@.pending()
        &&& self.summary.wf()
        &&& self.summary.summarizes(self.settled@)
        &&& self.summary.elapsed_secs == 0
        &&& self.summary.elapsed_nanos == 0
    }

    /// A well-formed coordinator stands for a well-formed run, of which the
    /// laws of this module hold.
    pub proof fn lemma_wf_state(&self)
        requires
            self.wf(),
        ensures
            self@.wf(),
    {
    }

    /// The coordinator of a run of `total_requests` requests in batches of
    /// at most `batch_size`.
    pub fn new(total_requests: usize, batch_size: usize) -> (coordinator: Coordinator)
        requires
            batch_size >= 1,
        ensures
            coordinator.wf(),
            coordinator@.wf(),
            coordinator@ == RunState::init(total_requests as nat, batch_size as nat),
    {
        proof {
            lemma_init_wf(total_requests as nat, batch_size as nat);
        }
        Coordinator {
            total_requests,
            batch_size,
            launched: 0,
            slots: Vec::new(),
            pending: 0,
            summary: RunSummary::new(),
            settled: Ghost(Seq::empty()),
        }
    }

    /// The coordinator of the run that `config` describes.
    pub fn for_run(config: &RunConfig) -> (coordinator: Coordinator)
        ensures
            coordinator.wf(),
            coordinator@.wf(),
            coordinator@ == RunState::init(config@.total_requests, config@.batch_size),
    {
        Coordinator::new(config.total_requests(), config.batch_size())
    }

    /// What to do next. A batch that is handed out counts as in flight from
    /// then on.
    pub fn poll(&mut self) -> (action: Action)
        requires
            old(self).wf(),
        ensures
            final(self).wf(),
            final(self)@.wf(),
            action == old(self)@.next_action(),
            final(self)@ == old(self)@.after_poll(),
            action matches Action::Launch(batch) ==> batch.is_batch_of(
                old(self)@.total,
                old(self)@.batch_size,
                old(self)@.launched,
            ),
    {
        proof {
            lemma_poll_keeps_wf(self@);
            lemma_open_bounded(self.slots@);
        }
        if self.slots.len() > 0 {
            return Action::Await { pending: self.pending };
        }
        match batch_at(self.total_requests, self.batch_size, self.launched) {
            Some(batch) => {
                proof {
                    lemma_batch_sizes(
                        self.total_requests as nat,
                        self.batch_size as nat,
                        self.launched as nat,
                    );
                    lemma_all_open(batch.count as nat);
                    lemma_batch_count_is_ceiling(
                        self.total_requests as nat,
                        self.batch_size as nat,
                    );
                }
                let mut slots: Vec<Option<RequestOutcome>> = Vec::new();
                let mut i: usize = 0;
                while i < batch.count
                    invariant
                        i <= batch.count,
                        slots@ == Seq::new(i as nat, |k: int| None::<RequestOutcome>),
                    decreases batch.count - i,
                {
                    slots.push(None);
                    i = i + 1;
                }
                self.slots = slots;
                self.pending = batch.count;
                self.launched = self.launched + 1;
                Action::Launch(batch)
            },
            None => Action::Finished,
        }
    }

    /// Reports the outcome of the request with sequence id `sequence_id`.
    /// The outcome that completes the batch in flight returns the aggregate
    /// of that batch, which has by then been added to the run's counts.
    pub fn record(&mut self, sequence_id: usize, outcome: RequestOutcome) -> (result: Result<
        Option<BatchResult>,
        RecordError,
    >)
        requires
            old(self).wf(),
        ensures
            final(self).wf(),
            final(self)@.wf(),
            final(self)@ == old(self)@.after_record(sequence_id as nat, outcome),
            result matches Ok(closed) ==> old(self)@.accepts(sequence_id as nat) is Ok && (closed
                is Some <==> old(self)@.closes_batch(sequence_id as nat)),
            result matches Ok(Some(batch)) ==> batch.wf() && batch.tallies(
                filled(old(self)@.slots_with(sequence_id as nat, outcome)),
            ) && batch.requests_attempted == batch_len(
                old(self)@.total,
                old(self)@.batch_size,
                (old(self)@.launched - 1) as nat,
            ),
            result matches Err(error) ==> old(self)@.accepts(sequence_id as nat) == Err::<
                (),
                RecordError,
            >(error),
    {
        proof {
            lemma_record_keeps_wf(self@, sequence_id as nat, outcome);
        }
        if self.slots.len() == 0 {
            return Err(RecordError::NoBatchInFlight);
        }
        let start = self.summary.total_sent;
        if sequence_id < start || sequence_id - start >= self.slots.len() {
            return Err(RecordError::OutsideBatch);
        }
        let i = sequence_id - start;
        if self.slots[i].is_some() {
            return Err(RecordError::AlreadyRecorded);
        }
        proof {
            lemma_fill_slot(self.slots@, i as int, outcome);
        }
        self.slots.set(i, Some(outcome));
        self.pending = self.pending - 1;
        if self.pending > 0 {
            return Ok(None);
        }
        proof {
            lemma_none_open(self.slots@);
        }
        let mut outcomes: Vec<RequestOutcome> = Vec::new();
        let mut k: usize = 0;
        while k < self.slots.len()
            invariant
                k <= self.slots.len(),
                forall|j: int| 0 <= j < self.slots@.len() ==> (#[trigger] self.slots@[j]) is Some,
                outcomes@ == filled(self.slots@).take(k as int),
            decreases self.slots.len() - k,
        {
            outcomes.push(self.slots[k].unwrap());
            k = k + 1;
        }
        assert(outcomes@ =~= filled(self.slots@));
        let batch = BatchResult::from_outcomes(&outcomes);
        proof {
            lemma_attempted_in(
                self.total_requests as nat,
                self.batch_size as nat,
                self.launched as nat,
            );
            lemma_batch_sizes(
                self.total_requests as nat,
                self.batch_size as nat,
                (self.launched - 1) as nat,
            );
        }
        self.summary.absorb(&batch);
        self.settled = Ghost(self.settled@ + outcomes@);
        self.slots = Vec::new();
        Ok(Some(batch))
    }

    /// The counts of all batches that are done.
    pub fn summary(&self) -> (summary: RunSummary)
        requires
            self.wf(),
        ensures
            summary.wf(),
            summary.summarizes(self@.settled),
            summary.elapsed_secs == 0,
            summary.elapsed_nanos == 0,
            self@.finished() ==> summary.total_sent == self@.total && summary.total_completed
                + summary.total_failed == self@.total,
    {
        proof {
            self.lemma_wf_state();
            if self@.finished() {
                lemma_finished_run(self@);
            }
        }
        self.summary
    }

    /// Whether every batch is done.
    pub fn is_finished(&self) -> (finished: bool)
        requires
            self.wf(),
        ensures
            finished == self@.finished(),
    {
        self.slots.len() == 0 && self.launched >= num_batches(self.total_requests, self.batch_size)
    }

    /// The number of requests of the run.
    pub fn total_requests(&self) -> (total: usize)
        ensures
            total == self@.total,
    {
        self.total_requests
    }

    /// The largest number of requests in flight at a time.
    pub fn batch_size(&self) -> (batch_size: usize)
        ensures
            batch_size == self@.batch_size,
    {
        self.batch_size
    }
}

} // verus!
