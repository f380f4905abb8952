use shutter_gate::shutter::SignalOutcome;
use shutter_gate::shutter::Shutter;

#[test]
fn new_tracker_is_empty() {
    let s = Shutter::new();
    assert!(s.is_empty());
    assert_eq!(s.len(), 0);
}

#[test]
fn register_grows_the_set() {
    let mut s = Shutter::new();
    assert!(s.register(1));
    assert!(s.register(2));
    assert_eq!(s.len(), 2);
    assert!(!s.is_empty());
}

#[test]
fn duplicate_registration_is_rejected() {
    let mut s = Shutter::new();
    assert!(s.register(1));
    assert!(!s.register(1));
    assert_eq!(s.len(), 1);
}

#[test]
fn reconciling_all_workers_drains_to_empty() {
    let mut s = Shutter::new();
    for id in 1..=5u64 {
        assert!(s.register(id));
    }
    let timer = 100;
    assert_eq!(s.on_signal(3, timer), SignalOutcome::Waiting);
    assert_eq!(s.on_signal(1, timer), SignalOutcome::Waiting);
    assert_eq!(s.on_signal(5, timer), SignalOutcome::Waiting);
    assert_eq!(s.on_signal(2, timer), SignalOutcome::Waiting);
    assert_eq!(s.on_signal(4, timer), SignalOutcome::AllDone);
    assert!(s.is_empty());
    assert_eq!(s.len(), 0);
}

#[test]
fn double_completion_is_a_violation() {
    let mut s = Shutter::new();
    assert!(s.register(1));
    assert!(s.register(2));
    let timer = 100;
    assert_eq!(s.on_signal(1, timer), SignalOutcome::Waiting);
    assert_eq!(s.on_signal(1, timer), SignalOutcome::Violation);
    assert_eq!(s.len(), 1);
}

#[test]
fn untracked_signal_is_a_violation() {
    let mut s = Shutter::new();
    assert!(s.register(1));
    assert_eq!(s.on_signal(42, 100), SignalOutcome::Violation);
    assert_eq!(s.len(), 1);
}
