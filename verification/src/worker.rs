use vstd::arithmetic::div_mod::{
    lemma_div_is_ordered, lemma_div_multiples_vanish, lemma_fundamental_div_mod,
};
use vstd::arithmetic::mul::lemma_mul_inequality;
use vstd::prelude::*;

use crate::descriptor::SimulationDescriptor;

verus! {

/// What the registrar answered for one identity.
#[derive(Clone, Copy, PartialEq, Eq, Structural, Debug)]
pub enum RegistrationOutcome {
    /// The remote entity was created by this call.
    Created,
    /// The remote entity already existed. The worker's job is to ensure
    /// presence, not uniqueness of creation, so this is success.
    AlreadyExists,
    /// The registrar failed. The identity may well exist from an earlier
    /// run, so the worker logs this and publishes anyway.
    Failed,
}

/// What one drain of the pending inbound messages answered.
#[derive(Clone, Copy, PartialEq, Eq, Structural, Debug)]
pub enum DrainOutcome {
    /// The channel answered with this many pending messages; zero is a
    /// perfectly good answer.
    Received(usize),
    /// The channel failed; the worker logs this and completes anyway.
    Failed,
}

/// The four lifecycle states, in the only order a worker may pass them.
#[derive(Clone, Copy, PartialEq, Eq, Structural, Debug)]
pub enum WorkerPhase {
    /// Asking the registrar to ensure the remote identity exists.
    Registering,
    /// Ticking: suspend one period, publish the fixed message, repeat while
    /// the elapsed time has not passed the budget.
    Publishing,
    /// Retrieving whatever inbound messages are pending, exactly once.
    Draining,
    /// Terminal; the worker does nothing further.
    Completed,
}

/// What the driver of a worker must do next on its behalf.
#[derive(Clone, Copy, PartialEq, Eq, Structural, Debug)]
pub enum WorkerAction {
    /// Ask the registrar to ensure the identity exists, then feed back
    /// `Registered`.
    Register,
    /// Suspend for one period, publish the fixed message once, then feed
    /// back `Published`.
    SleepAndPublish,
    /// Retrieve the pending inbound batch once, then feed back `Drained`.
    Drain,
    /// Hand the orchestrator this worker's one completion signal.
    SignalCompletion,
}

/// The outside world's answer to the action a worker asked for.
#[derive(Clone, Copy, PartialEq, Eq, Structural, Debug)]
pub enum WorkerEvent {
    /// Answer to `Register`.
    Registered(RegistrationOutcome),
    /// Answer to `SleepAndPublish`: whether the publish call succeeded.
    Published(bool),
    /// Answer to `Drain`.
    Drained(DrainOutcome),
}

/// Everything one worker carries between two events. Each worker owns its
/// own state; nothing here is ever shared across workers.
#[derive(Clone, Copy, Debug)]
pub struct WorkerState {
    /// Where in the lifecycle the worker stands.
    pub phase: WorkerPhase,
    /// Publish attempts made so far, failed ones included.
    pub attempts_done: u64,
    /// How many of those attempts the transport answered with a failure.
    pub publish_failures: u64,
    /// The registrar's answer, once it arrived.
    pub registration: Option<RegistrationOutcome>,
    /// The drain's answer, once it arrived.
    pub drained: Option<DrainOutcome>,
}

/// Whether the next publish attempt is still due: the period must fit the
/// budget at all — a period longer than the whole budget yields no attempt —
/// and the ideal elapsed time so far, attempts made times the period, must
/// not have passed the budget (the boundary itself included).
pub open spec fn publish_due(attempts_done: int, period: int, duration: int) -> bool {
    &&& 1 <= period
    &&& period <= duration
    &&& attempts_done * period <= duration
}

/// How many publish attempts one run makes when the transport answers
/// without delay: none when the period exceeds the budget, else one for
/// each multiple of the period from zero through the budget.
pub open spec fn planned_attempts(period: int, duration: int) -> int {
    if period < 1 || duration < period {
        0
    } else {
        duration / period + 1
    }
}

/// An attempt is due exactly while fewer than the planned number have been
/// made.
pub proof fn lemma_due_iff_below_planned(n: int, period: int, duration: int)
    requires
        0 <= n,
        1 <= period,
        0 <= duration,
    ensures
        publish_due(n, period, duration) <==> n < planned_attempts(period, duration),
{
    if duration < period {
        assert(!publish_due(n, period, duration));
    } else {
        if n * period <= duration {
            lemma_div_is_ordered(n * period, duration, period);
            lemma_div_multiples_vanish(n, period);
            assert(n * period == period * n) by (nonlinear_arith);
            assert(n <= duration / period);
        }
        if n <= duration / period {
            lemma_fundamental_div_mod(duration, period);
            lemma_mul_inequality(n, duration / period, period);
            assert((duration / period) * period <= duration);
            assert(n * period <= duration);
        }
    }
}

/// The state a worker is spawned in.
pub open spec fn initial_state() -> WorkerState {
    WorkerState {
        phase: WorkerPhase::Registering,
        attempts_done: 0,
        publish_failures: 0,
        registration: None,
        drained: None,
    }
}

/// The whole decision logic of one worker: what one event makes of one
/// state. An event that does not belong to the current phase changes
/// nothing; the driver never produces one.
pub open spec fn spec_step(s: WorkerState, e: WorkerEvent, period: int, duration: int) -> WorkerState {
    match (s.phase, e) {
        (WorkerPhase::Registering, WorkerEvent::Registered(outcome)) => WorkerState {
            phase: if publish_due(0, period, duration) {
                WorkerPhase::Publishing
            } else {
                WorkerPhase::Draining
            },
            registration: Some(outcome),
            ..s
        },
        (WorkerPhase::Publishing, WorkerEvent::Published(ok)) => WorkerState {
            phase: if publish_due(s.attempts_done + 1, period, duration) {
                WorkerPhase::Publishing
            } else {
                WorkerPhase::Draining
            },
            attempts_done: (s.attempts_done + 1) as u64,
            publish_failures: if ok {
                s.publish_failures
            } else {
                (s.publish_failures + 1) as u64
            },
            ..s
        },
        (WorkerPhase::Draining, WorkerEvent::Drained(outcome)) => WorkerState {
            phase: WorkerPhase::Completed,
            drained: Some(outcome),
            ..s
        },
        _ => s,
    }
}

/// What any reachable state of a worker satisfies, against its descriptor's
/// timing. In particular: once no further attempt is due — from `Draining`
/// on — the attempts made are exactly the planned ones.
pub open spec fn state_wf(s: WorkerState, period: int, duration: int) -> bool {
    &&& s.publish_failures <= s.attempts_done
    &&& match s.phase {
        WorkerPhase::Registering => s.attempts_done == 0 && s.registration is None
            && s.drained is None,
        WorkerPhase::Publishing => publish_due(s.attempts_done as int, period, duration)
            && s.registration is Some && s.drained is None,
        WorkerPhase::Draining => s.attempts_done == planned_attempts(period, duration)
            && s.registration is Some && s.drained is None,
        WorkerPhase::Completed => s.attempts_done == planned_attempts(period, duration)
            && s.registration is Some && s.drained is Some,
    }
}

/// One step keeps every reachable-state property.
pub proof fn lemma_step_preserves_wf(s: WorkerState, e: WorkerEvent, period: int, duration: int)
    requires
        1 <= period,
        0 <= duration,
        duration / period < u64::MAX,
        state_wf(s, period, duration),
    ensures
        state_wf(spec_step(s, e, period, duration), period, duration),
{
    match (s.phase, e) {
        (WorkerPhase::Registering, WorkerEvent::Registered(_)) => {
            if !publish_due(0, period, duration) {
                assert(duration < period);
                assert(planned_attempts(period, duration) == 0);
            }
        },
        (WorkerPhase::Publishing, WorkerEvent::Published(_)) => {
            let n = s.attempts_done as int;
            lemma_due_iff_below_planned(n, period, duration);
            assert(n < planned_attempts(period, duration));
            assert(planned_attempts(period, duration) == duration / period + 1);
            assert(n + 1 <= duration / period + 1 < u64::MAX + 1);
            if !publish_due(n + 1, period, duration) {
                lemma_due_iff_below_planned(n + 1, period, duration);
                assert(n + 1 >= planned_attempts(period, duration));
                assert(n + 1 == planned_attempts(period, duration));
            }
        },
        _ => {},
    }
}

/// A worker never returns to an earlier lifecycle state.
pub open spec fn phase_rank(phase: WorkerPhase) -> int {
    match phase {
        WorkerPhase::Registering => 0,
        WorkerPhase::Publishing => 1,
        WorkerPhase::Draining => 2,
        WorkerPhase::Completed => 3,
    }
}

/// No event — answer, failure, or stray — ever moves a worker backwards
/// through its lifecycle.
pub proof fn lemma_no_backward_transition(s: WorkerState, e: WorkerEvent, period: int, duration: int)
    ensures
        phase_rank(spec_step(s, e, period, duration).phase) >= phase_rank(s.phase),
{
}

/// The registrar's answer steers no control flow: whatever arrives —
/// created, already existing, or a failure — the worker proceeds exactly
/// the same way; the two success answers differ only in the outcome stored
/// for the report.
pub proof fn lemma_registration_outcome_immaterial(
    s: WorkerState,
    o1: RegistrationOutcome,
    o2: RegistrationOutcome,
    period: int,
    duration: int,
)
    ensures
        ({
            let r1 = spec_step(s, WorkerEvent::Registered(o1), period, duration);
            let r2 = spec_step(s, WorkerEvent::Registered(o2), period, duration);
            r1.phase == r2.phase && r1.attempts_done == r2.attempts_done
                && r1.publish_failures == r2.publish_failures && r1.drained == r2.drained
        }),
{
}

impl WorkerState {
    /// The state a worker is spawned in.
    pub fn new() -> (s: WorkerState)
        ensures
            s == initial_state(),
    {
        WorkerState {
            phase: WorkerPhase::Registering,
            attempts_done: 0,
            publish_failures: 0,
            registration: None,
            drained: None,
        }
    }

    /// What the driver must do next in this state.
    pub fn next_action(&self) -> (a: WorkerAction)
        ensures
            a == spec_next_action(*self),
    {
        match self.phase {
            WorkerPhase::Registering => WorkerAction::Register,
            WorkerPhase::Publishing => WorkerAction::SleepAndPublish,
            WorkerPhase::Draining => WorkerAction::Drain,
            WorkerPhase::Completed => WorkerAction::SignalCompletion,
        }
    }

    /// Advance on the outside world's answer to the last action.
    pub fn on_event(&mut self, e: WorkerEvent, desc: &SimulationDescriptor)
        requires
            desc.wf(),
            state_wf(*old(self), desc.period_ms as int, desc.duration_ms as int),
        ensures
            *final(self) == spec_step(
                *old(self),
                e,
                desc.period_ms as int,
                desc.duration_ms as int,
            ),
            state_wf(*final(self), desc.period_ms as int, desc.duration_ms as int),
    {
        proof {
            lemma_step_preserves_wf(
                *self,
                e,
                desc.period_ms as int,
                desc.duration_ms as int,
            );
        }
        match (self.phase, e) {
            (WorkerPhase::Registering, WorkerEvent::Registered(outcome)) => {
                self.registration = Some(outcome);
                self.phase = if publish_due_now(0, desc.period_ms, desc.duration_ms) {
                    WorkerPhase::Publishing
                } else {
                    WorkerPhase::Draining
                };
            },
            (WorkerPhase::Publishing, WorkerEvent::Published(ok)) => {
                proof {
                    lemma_due_iff_below_planned(
                        self.attempts_done as int,
                        desc.period_ms as int,
                        desc.duration_ms as int,
                    );
                }
                self.attempts_done = self.attempts_done + 1;
                if !ok {
                    self.publish_failures = self.publish_failures + 1;
                }
                self.phase = if publish_due_now(self.attempts_done, desc.period_ms, desc.duration_ms) {
                    WorkerPhase::Publishing
                } else {
                    WorkerPhase::Draining
                };
            },
            (WorkerPhase::Draining, WorkerEvent::Drained(outcome)) => {
                self.drained = Some(outcome);
                self.phase = WorkerPhase::Completed;
            },
            _ => {},
        }
    }
}

/// The action each phase calls for.
pub open spec fn spec_next_action(s: WorkerState) -> WorkerAction {
    match s.phase {
        WorkerPhase::Registering => WorkerAction::Register,
        WorkerPhase::Publishing => WorkerAction::SleepAndPublish,
        WorkerPhase::Draining => WorkerAction::Drain,
        WorkerPhase::Completed => WorkerAction::SignalCompletion,
    }
}

/// The phrase a worker's log line reports for each registrar answer — the
/// only place the two success answers differ at all.
pub fn registration_label(outcome: RegistrationOutcome) -> (r: &'static str)
    ensures
        r@ == spec_registration_label(outcome),
{
    match outcome {
        RegistrationOutcome::Created => "created",
        RegistrationOutcome::AlreadyExists => "already exists",
        RegistrationOutcome::Failed => "could not be created",
    }
}

/// The report phrase each registrar answer carries.
pub open spec fn spec_registration_label(outcome: RegistrationOutcome) -> Seq<char> {
    match outcome {
        RegistrationOutcome::Created => "created"@,
        RegistrationOutcome::AlreadyExists => "already exists"@,
        RegistrationOutcome::Failed => "could not be created"@,
    }
}

/// The two success answers, alike in all control flow, are nevertheless
/// observable: their reported phrases differ.
pub proof fn lemma_registration_labels_distinct()
    ensures
        spec_registration_label(RegistrationOutcome::Created) != spec_registration_label(
            RegistrationOutcome::AlreadyExists,
        ),
{
    reveal_strlit("created");
    reveal_strlit("already exists");
    assert(spec_registration_label(RegistrationOutcome::Created).len() == 7);
    assert(spec_registration_label(RegistrationOutcome::AlreadyExists).len() == 14);
}

/// What one finished worker reports upward: the registrar's answer, the
/// publish attempts made and how many the transport failed, and the
/// drain's answer. Only the completion signal, never any error in here,
/// reaches the orchestrator as a condition.
#[derive(Clone, Copy, PartialEq, Eq, Structural, Debug)]
pub struct WorkerReport {
    /// What the registrar answered.
    pub registration: RegistrationOutcome,
    /// Publish attempts made, failed ones included.
    pub publish_attempts: u64,
    /// How many attempts the transport answered with a failure.
    pub publish_failures: u64,
    /// What the one drain answered.
    pub drained: DrainOutcome,
}

/// How many of the first `k` transport answers were failures.
pub open spec fn failures_among(answers: Seq<bool>, k: int) -> int
    decreases k,
{
    if k <= 0 {
        0
    } else {
        failures_among(answers, k - 1) + if answers[k - 1] {
            0int
        } else {
            1int
        }
    }
}

/// The report one lifecycle yields, as a function of the descriptor's
/// timing and of the outside world's answers alone.
pub open spec fn spec_run_report(
    desc: SimulationDescriptor,
    registration: RegistrationOutcome,
    answers: Seq<bool>,
    drain: DrainOutcome,
) -> WorkerReport {
    let planned = planned_attempts(desc.period_ms as int, desc.duration_ms as int);
    WorkerReport {
        registration,
        publish_attempts: planned as u64,
        publish_failures: failures_among(answers, planned) as u64,
        drained: drain,
    }
}

/// One whole lifecycle on an ideal clock, the outside world's answers given
/// up front: the registrar's outcome, one transport answer per due publish
/// attempt, and the drain's outcome. Whatever those answers are — failures
/// throughout included — the worker runs to completion and reports exactly
/// the planned number of attempts.
pub fn run_one(
    desc: &SimulationDescriptor,
    registration: RegistrationOutcome,
    publish_answers: &Vec<bool>,
    drain: DrainOutcome,
) -> (report: WorkerReport)
    requires
        desc.wf(),
        publish_answers@.len() >= planned_attempts(
            desc.period_ms as int,
            desc.duration_ms as int,
        ),
    ensures
        report == spec_run_report(*desc, registration, publish_answers@, drain),
{
    let ghost p: int = desc.period_ms as int;
    let ghost d: int = desc.duration_ms as int;
    let mut st = WorkerState::new();
    st.on_event(WorkerEvent::Registered(registration), desc);
    proof {
        lemma_due_iff_below_planned(0, p, d);
    }
    let mut next: usize = 0;
    let total: usize = publish_answers.len();
    while st.phase == WorkerPhase::Publishing
        invariant
            desc.wf(),
            p == desc.period_ms as int,
            d == desc.duration_ms as int,
            total as int == publish_answers@.len(),
            publish_answers@.len() >= planned_attempts(p, d),
            state_wf(st, p, d),
            st.phase == WorkerPhase::Publishing || st.phase == WorkerPhase::Draining,
            st.registration == Some(registration),
            st.drained is None,
            next as int == st.attempts_done as int,
            st.attempts_done as int <= planned_attempts(p, d),
            st.publish_failures as int == failures_among(publish_answers@, st.attempts_done as int),
        decreases planned_attempts(p, d) - st.attempts_done,
    {
        proof {
            lemma_due_iff_below_planned(st.attempts_done as int, p, d);
        }
        let ok: bool = publish_answers[next];
        st.on_event(WorkerEvent::Published(ok), desc);
        next = next + 1;
        proof {
            lemma_due_iff_below_planned(st.attempts_done as int, p, d);
        }
    }
    st.on_event(WorkerEvent::Drained(drain), desc);
    WorkerReport {
        registration,
        publish_attempts: st.attempts_done,
        publish_failures: st.publish_failures,
        drained: drain,
    }
}

/// How many publish attempts a timing plans, as a run-time value.
pub fn planned_publish_count(period_ms: u64, duration_ms: u64) -> (n: u64)
    requires
        period_ms < 1 || (duration_ms as int) / (period_ms as int) < u64::MAX,
    ensures
        n as int == planned_attempts(period_ms as int, duration_ms as int),
{
    if period_ms < 1 || duration_ms < period_ms {
        0
    } else {
        duration_ms / period_ms + 1
    }
}

/// The state a worker reaches after a sequence of events.
pub open spec fn run_events(
    s: WorkerState,
    evs: Seq<WorkerEvent>,
    period: int,
    duration: int,
) -> WorkerState
    decreases evs.len(),
{
    if evs.len() == 0 {
        s
    } else {
        run_events(spec_step(s, evs[0], period, duration), evs.drop_first(), period, duration)
    }
}

/// Whether an event is the answer to the action the state asks for.
pub open spec fn event_matches(s: WorkerState, e: WorkerEvent) -> bool {
    match (s.phase, e) {
        (WorkerPhase::Registering, WorkerEvent::Registered(_)) => true,
        (WorkerPhase::Publishing, WorkerEvent::Published(_)) => true,
        (WorkerPhase::Draining, WorkerEvent::Drained(_)) => true,
        _ => false,
    }
}

/// A trace a faithful driver can produce: every event answers the action
/// its state asked for.
pub open spec fn trace_valid(
    s: WorkerState,
    evs: Seq<WorkerEvent>,
    period: int,
    duration: int,
) -> bool
    decreases evs.len(),
{
    evs.len() == 0 || (event_matches(s, evs[0]) && trace_valid(
        spec_step(s, evs[0], period, duration),
        evs.drop_first(),
        period,
        duration,
    ))
}

/// How many of the events are transport answers to a publish.
pub open spec fn published_count(evs: Seq<WorkerEvent>) -> int
    decreases evs.len(),
{
    if evs.len() == 0 {
        0
    } else {
        (if evs[0] is Published {
            1int
        } else {
            0int
        }) + published_count(evs.drop_first())
    }
}

/// Along any faithful trace, every state keeps its invariant and the
/// attempt counter counts exactly the publish answers consumed.
proof fn lemma_run_accounting(s: WorkerState, evs: Seq<WorkerEvent>, period: int, duration: int)
    requires
        1 <= period,
        0 <= duration,
        duration / period < u64::MAX,
        state_wf(s, period, duration),
        trace_valid(s, evs, period, duration),
    ensures
        state_wf(run_events(s, evs, period, duration), period, duration),
        run_events(s, evs, period, duration).attempts_done == s.attempts_done + published_count(
            evs,
        ),
    decreases evs.len(),
{
    if evs.len() > 0 {
        let s1 = spec_step(s, evs[0], period, duration);
        lemma_step_preserves_wf(s, evs[0], period, duration);
        if s.phase is Publishing {
            lemma_due_iff_below_planned(s.attempts_done as int, period, duration);
        }
        lemma_run_accounting(s1, evs.drop_first(), period, duration);
    }
}

/// Any complete run — a faithful trace that carries a worker from its
/// initial state to `Completed` — publishes exactly the planned number of
/// times: none at all when the period exceeds the budget, else one more
/// than the budget holds whole periods.
pub proof fn lemma_complete_run_publishes_planned(
    evs: Seq<WorkerEvent>,
    period: int,
    duration: int,
)
    requires
        1 <= period,
        0 <= duration,
        duration / period < u64::MAX,
        trace_valid(initial_state(), evs, period, duration),
        run_events(initial_state(), evs, period, duration).phase == WorkerPhase::Completed,
    ensures
        run_events(initial_state(), evs, period, duration).attempts_done == planned_attempts(
            period,
            duration,
        ),
        published_count(evs) == planned_attempts(period, duration),
{
    lemma_run_accounting(initial_state(), evs, period, duration);
}

/// Running the same descriptor again — against a registrar that now answers
/// "already exists", or indeed answers anything — publishes and drains
/// exactly as the first run did: the reports differ in the stored
/// registration outcome alone.
pub proof fn lemma_rerun_behaviour_identical(
    desc: SimulationDescriptor,
    first: RegistrationOutcome,
    second: RegistrationOutcome,
    answers: Seq<bool>,
    drain: DrainOutcome,
)
    ensures
        ({
            let r1 = spec_run_report(desc, first, answers, drain);
            let r2 = spec_run_report(desc, second, answers, drain);
            r1.publish_attempts == r2.publish_attempts && r1.publish_failures
                == r2.publish_failures && r1.drained == r2.drained
        }),
{
}

/// Decides `publish_due` at run time; whether the ideal elapsed time has
/// passed the budget is read off the quotient, which never overflows.
fn publish_due_now(attempts_done: u64, period: u64, duration: u64) -> (r: bool)
    ensures
        r == publish_due(attempts_done as int, period as int, duration as int),
{
    if period >= 1 && period <= duration {
        proof {
            lemma_due_iff_below_planned(
                attempts_done as int,
                period as int,
                duration as int,
            );
        }
        attempts_done <= duration / period
    } else {
        false
    }
}

} // verus!
