use device_sim::clock::stamp_line;
use device_sim::descriptor::{validate_descriptor_set, SimulationDescriptor};
use device_sim::session::{session_matches, Session};

fn descriptor(sn: &str, period_ms: u64, duration_ms: u64) -> SimulationDescriptor {
    SimulationDescriptor {
        thing_name: String::from("device"),
        thing_sn: String::from(sn),
        thing_type: 1,
        msg_topic: String::from("topic"),
        msg_content: String::from("content"),
        period_ms,
        duration_ms,
    }
}

#[test]
fn empty_descriptor_set_is_rejected() {
    let descs: Vec<SimulationDescriptor> = Vec::new();
    assert!(!validate_descriptor_set(&descs));
}

#[test]
fn good_descriptor_set_is_accepted() {
    let descs = vec![
        descriptor("sn-1", 1000, 3000),
        descriptor("sn-2", 500, 0),
        descriptor("sn-3", u64::MAX, 1),
    ];
    assert!(validate_descriptor_set(&descs));
}

#[test]
fn empty_serial_is_rejected() {
    let descs = vec![descriptor("sn-1", 1000, 3000), descriptor("", 1000, 3000)];
    assert!(!validate_descriptor_set(&descs));
}

#[test]
fn duplicate_serial_is_rejected() {
    let descs = vec![
        descriptor("sn-1", 1000, 3000),
        descriptor("sn-2", 500, 500),
        descriptor("sn-1", 200, 200),
    ];
    assert!(!validate_descriptor_set(&descs));
}

#[test]
fn zero_period_is_rejected() {
    let descs = vec![descriptor("sn-1", 0, 3000)];
    assert!(!validate_descriptor_set(&descs));
}

#[test]
fn unbounded_attempt_count_is_rejected() {
    let descs = vec![descriptor("sn-1", 1, u64::MAX)];
    assert!(!validate_descriptor_set(&descs));
}

#[test]
fn session_requires_both_user_match_and_validity() {
    let configured = String::from("alice");
    let same = String::from("alice");
    let other = String::from("bob");
    assert!(session_matches(&same, true, &configured));
    assert!(!session_matches(&same, false, &configured));
    assert!(!session_matches(&other, true, &configured));
    assert!(!session_matches(&other, false, &configured));
}

#[test]
fn session_keeps_its_user() {
    let s = Session::new(String::from("alice"));
    assert_eq!(s.user, "alice");
}

#[test]
fn log_lines_carry_a_timestamp() {
    let line = stamp_line("Application started.");
    assert!(line.starts_with('['));
    assert!(line.ends_with("] Application started."));
    // the stamp between the brackets is never empty
    assert!(line.len() > "[] Application started.".len());
}
