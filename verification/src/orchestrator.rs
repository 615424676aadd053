use vstd::prelude::*;

use crate::descriptor::{descriptor_set_wf, SimulationDescriptor};
use crate::worker::{
    planned_attempts, run_one, spec_run_report, DrainOutcome, RegistrationOutcome, WorkerReport,
};

verus! {

/// The consumer end of the run's one shared structure: it counts workers'
/// one-shot completion signals and decides when the join is over. It never
/// inspects a signal's value, so no arrival order is ever depended on.
pub struct CompletionTracker {
    /// How many workers the run spawned.
    pub expected: usize,
    /// How many of them have reported completion so far.
    pub received: usize,
}

/// What recording one signal does: one more received, nothing else — the
/// signal's value plays no part.
pub open spec fn spec_record(t: CompletionTracker, signal: usize) -> CompletionTracker {
    CompletionTracker { expected: t.expected, received: (t.received + 1) as usize }
}

/// The tracker a sequence of signals leaves behind.
pub open spec fn after_signals(t: CompletionTracker, signals: Seq<usize>) -> CompletionTracker
    decreases signals.len(),
{
    if signals.len() == 0 {
        t
    } else {
        after_signals(spec_record(t, signals[0]), signals.drop_first())
    }
}

impl CompletionTracker {
    /// No more signals counted than workers spawned: each worker sends
    /// exactly one.
    pub open spec fn wf(self) -> bool {
        self.received <= self.expected
    }

    /// The join is over: every spawned worker has reported.
    pub open spec fn all_in(self) -> bool {
        self.received == self.expected
    }

    /// A fresh tracker for a run of `expected` workers.
    pub fn new(expected: usize) -> (t: CompletionTracker)
        requires
            expected >= 1,
        ensures
            t.expected == expected,
            t.received == 0,
            t.wf(),
    {
        CompletionTracker { expected, received: 0 }
    }

    /// Count one completion signal. Which worker sent it, and in what order
    /// it arrived, changes nothing.
    pub fn record(&mut self, signal: usize)
        requires
            old(self).wf(),
            !old(self).all_in(),
        ensures
            *final(self) == spec_record(*old(self), signal),
            final(self).wf(),
    {
        self.received = self.received + 1;
    }

    /// Whether the run may report completion yet.
    pub fn is_done(&self) -> (r: bool)
        ensures
            r == self.all_in(),
    {
        self.received == self.expected
    }
}

/// Counting signals adds their number and touches nothing else.
proof fn lemma_after_signals_adds(t: CompletionTracker, signals: Seq<usize>)
    requires
        t.wf(),
        t.received + signals.len() <= t.expected,
    ensures
        after_signals(t, signals).expected == t.expected,
        after_signals(t, signals).received == t.received + signals.len(),
    decreases signals.len(),
{
    if signals.len() > 0 {
        lemma_after_signals_adds(spec_record(t, signals[0]), signals.drop_first());
    }
}

/// The join counts signals and nothing else: starting from a fresh tracker
/// for `n` workers, a sequence of signals — whatever their values, in
/// whatever order they arrived — finishes the join exactly when it holds
/// `n` of them. The run therefore returns only after every one of its `n`
/// workers has reported, and at once then.
pub proof fn lemma_join_counts_signals(n: usize, signals: Seq<usize>)
    requires
        n >= 1,
        signals.len() <= n,
    ensures
        after_signals(CompletionTracker { expected: n, received: 0 }, signals).received
            == signals.len(),
        after_signals(CompletionTracker { expected: n, received: 0 }, signals).all_in()
            <==> signals.len() == n,
{
    lemma_after_signals_adds(CompletionTracker { expected: n, received: 0 }, signals);
}

/// What a finished run reports: how many workers completed.
pub struct RunOutcome {
    /// The number of workers that reported completion — always the whole
    /// set, since the join ends only then.
    pub workers_completed: usize,
}

/// Close a finished join: only a tracker that has every signal in can be
/// turned into the run's outcome.
pub fn finish(t: &CompletionTracker) -> (o: RunOutcome)
    requires
        t.all_in(),
    ensures
        o.workers_completed == t.expected,
{
    RunOutcome { workers_completed: t.received }
}

/// Every worker's lifecycle on the ideal clock, one report per descriptor:
/// the fan-out's result, each entry a function of that descriptor's own
/// answers alone.
pub fn run_all(
    descs: &Vec<SimulationDescriptor>,
    registrations: &Vec<RegistrationOutcome>,
    publish_answers: &Vec<Vec<bool>>,
    drains: &Vec<DrainOutcome>,
) -> (reports: Vec<WorkerReport>)
    requires
        descriptor_set_wf(descs@),
        registrations@.len() == descs@.len(),
        publish_answers@.len() == descs@.len(),
        drains@.len() == descs@.len(),
        forall|i: int|
            0 <= i < descs@.len() ==> #[trigger] publish_answers@[i]@.len() >= planned_attempts(
                descs@[i].period_ms as int,
                descs@[i].duration_ms as int,
            ),
    ensures
        reports@.len() == descs@.len(),
        forall|i: int|
            0 <= i < descs@.len() ==> #[trigger] reports@[i] == spec_run_report(
                descs@[i],
                registrations@[i],
                publish_answers@[i]@,
                drains@[i],
            ),
{
    let n: usize = descs.len();
    let mut reports: Vec<WorkerReport> = Vec::new();
    let mut i: usize = 0;
    while i < n
        invariant
            n == descs@.len(),
            descriptor_set_wf(descs@),
            registrations@.len() == n,
            publish_answers@.len() == n,
            drains@.len() == n,
            forall|k: int|
                0 <= k < n ==> #[trigger] publish_answers@[k]@.len() >= planned_attempts(
                    descs@[k].period_ms as int,
                    descs@[k].duration_ms as int,
                ),
            i <= n,
            reports@.len() == i,
            forall|k: int|
                0 <= k < i ==> #[trigger] reports@[k] == spec_run_report(
                    descs@[k],
                    registrations@[k],
                    publish_answers@[k]@,
                    drains@[k],
                ),
        decreases n - i,
    {
        let r = run_one(&descs[i], registrations[i], &publish_answers[i], drains[i]);
        reports.push(r);
        i = i + 1;
    }
    reports
}

/// Failure isolation: one worker's report is a function of its own
/// descriptor and its own answers alone. However the transport, the
/// registrar, or the drain treated every other worker — every publish
/// failed, every registration failed — worker `i` reports the same.
pub proof fn lemma_worker_isolation(
    descs: Seq<SimulationDescriptor>,
    regs1: Seq<RegistrationOutcome>,
    answers1: Seq<Seq<bool>>,
    drains1: Seq<DrainOutcome>,
    regs2: Seq<RegistrationOutcome>,
    answers2: Seq<Seq<bool>>,
    drains2: Seq<DrainOutcome>,
    i: int,
)
    requires
        0 <= i < descs.len(),
        regs1[i] == regs2[i],
        answers1[i] == answers2[i],
        drains1[i] == drains2[i],
    ensures
        spec_run_report(descs[i], regs1[i], answers1[i], drains1[i]) == spec_run_report(
            descs[i],
            regs2[i],
            answers2[i],
            drains2[i],
        ),
{
}

} // verus!
