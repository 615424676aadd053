use device_sim::descriptor::{validate_descriptor_set, SimulationDescriptor};
use device_sim::orchestrator::{finish, run_all, CompletionTracker};
use device_sim::worker::{
    run_one, DrainOutcome, RegistrationOutcome, WorkerAction, WorkerEvent, WorkerPhase,
    WorkerState,
};

fn descriptor(sn: &str, period_ms: u64, duration_ms: u64) -> SimulationDescriptor {
    SimulationDescriptor {
        thing_name: String::from("device"),
        thing_sn: String::from(sn),
        thing_type: 7,
        msg_topic: String::from("status"),
        msg_content: String::from("ok"),
        period_ms,
        duration_ms,
    }
}

#[test]
fn join_waits_for_exactly_all_signals() {
    let mut tracker = CompletionTracker::new(3);
    assert!(!tracker.is_done());
    // completion signals arrive in an order the spawner never chose
    tracker.record(2);
    assert!(!tracker.is_done());
    tracker.record(0);
    assert!(!tracker.is_done());
    tracker.record(1);
    assert!(tracker.is_done());
    let outcome = finish(&tracker);
    assert_eq!(outcome.workers_completed, 3);
}

#[test]
fn single_worker_with_zero_duration_contributes_one_signal() {
    let descs = vec![descriptor("sn-single", 1000, 0)];
    assert!(validate_descriptor_set(&descs));
    let answers: Vec<Vec<bool>> = vec![Vec::new()];
    let reports = run_all(
        &descs,
        &vec![RegistrationOutcome::Created],
        &answers,
        &vec![DrainOutcome::Received(0)],
    );
    assert_eq!(reports.len(), 1);
    assert_eq!(reports[0].publish_attempts, 0);
    let mut tracker = CompletionTracker::new(1);
    for (i, _) in reports.iter().enumerate() {
        assert!(!tracker.is_done());
        tracker.record(i);
    }
    assert!(tracker.is_done());
}

#[test]
fn one_worker_failing_leaves_the_others_alone() {
    let descs = vec![
        descriptor("sn-a", 1000, 3000),
        descriptor("sn-b", 1000, 3000),
        descriptor("sn-c", 500, 1000),
    ];
    assert!(validate_descriptor_set(&descs));
    let healthy = vec![
        vec![true, true, true, true],
        vec![true, true, true, true],
        vec![true, true, true],
    ];
    let troubled = vec![
        vec![true, true, true, true],
        vec![false, false, false, false],
        vec![true, true, true],
    ];
    let regs = vec![
        RegistrationOutcome::Created,
        RegistrationOutcome::Failed,
        RegistrationOutcome::AlreadyExists,
    ];
    let drains = vec![
        DrainOutcome::Received(0),
        DrainOutcome::Failed,
        DrainOutcome::Received(5),
    ];
    let good = run_all(&descs, &regs, &healthy, &drains);
    let bad = run_all(&descs, &regs, &troubled, &drains);
    // worker 1 fails every publish in the second run; 0 and 2 are untouched
    assert_eq!(good[0], bad[0]);
    assert_eq!(good[2], bad[2]);
    assert_eq!(bad[1].publish_attempts, 4);
    assert_eq!(bad[1].publish_failures, 4);
    // every worker completed and reported, failures notwithstanding
    assert_eq!(bad.len(), 3);
}

#[test]
fn three_workers_progress_independently() {
    let descs = vec![
        descriptor("sn-rr-1", 1000, 3000),
        descriptor("sn-rr-2", 1000, 3000),
        descriptor("sn-rr-3", 1000, 3000),
    ];
    assert!(validate_descriptor_set(&descs));
    // drive the three lifecycles interleaved, one step each in turn: no
    // worker's progress ever depends on another's
    let mut states = vec![WorkerState::new(), WorkerState::new(), WorkerState::new()];
    let mut sent = vec![false, false, false];
    let mut signals = 0;
    let mut steps = 0;
    while signals < 3 {
        for (i, st) in states.iter_mut().enumerate() {
            match st.next_action() {
                WorkerAction::Register => {
                    st.on_event(
                        WorkerEvent::Registered(RegistrationOutcome::AlreadyExists),
                        &descs[i],
                    );
                }
                WorkerAction::SleepAndPublish => {
                    st.on_event(WorkerEvent::Published(true), &descs[i]);
                }
                WorkerAction::Drain => {
                    st.on_event(WorkerEvent::Drained(DrainOutcome::Received(0)), &descs[i]);
                }
                WorkerAction::SignalCompletion => {
                    // one completion signal per worker, exactly once
                    if !sent[i] {
                        sent[i] = true;
                        signals += 1;
                    }
                }
            }
        }
        steps += 1;
        assert!(steps < 100, "a worker failed to complete");
    }
    for st in &states {
        assert_eq!(st.phase, WorkerPhase::Completed);
        assert_eq!(st.attempts_done, 4);
    }
}

#[test]
fn run_all_matches_each_worker_run_alone() {
    let descs = vec![descriptor("sn-x", 2000, 6000), descriptor("sn-y", 3000, 2000)];
    assert!(validate_descriptor_set(&descs));
    let answers = vec![vec![false, true, true, true], vec![]];
    let regs = vec![RegistrationOutcome::Created, RegistrationOutcome::Created];
    let drains = vec![DrainOutcome::Received(1), DrainOutcome::Received(0)];
    let together = run_all(&descs, &regs, &answers, &drains);
    let alone_x = run_one(&descs[0], regs[0], &answers[0], drains[0]);
    let alone_y = run_one(&descs[1], regs[1], &answers[1], drains[1]);
    assert_eq!(together[0], alone_x);
    assert_eq!(together[1], alone_y);
    assert_eq!(alone_y.publish_attempts, 0);
}
