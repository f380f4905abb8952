use shutter_gate::shutter::SignalOutcome;
use shutter_gate::shutter::Shutter;
use shutter_gate::shutter::WaitVerdict;

// Two workers finish well before the deadline: the wait succeeds without the
// timer's signal ever being read.
#[test]
fn workers_finish_before_deadline() {
    let mut s = Shutter::new();
    assert!(s.register(1));
    assert!(s.register(2));
    let timer = 100;
    assert_eq!(s.on_signal(1, timer), SignalOutcome::Waiting);
    assert_eq!(s.on_signal(2, timer), SignalOutcome::AllDone);
    assert!(s.is_empty());
}

// The deadline elapses while a worker is still outstanding and nothing more
// is queued: a timeout.
#[test]
fn deadline_fires_with_worker_outstanding() {
    let mut s = Shutter::new();
    assert!(s.register(1));
    let timer = 100;
    assert_eq!(s.on_signal(timer, timer), SignalOutcome::DeadlineHit);
    let drained: Vec<u64> = Vec::new();
    assert_eq!(s.resolve_deadline(&drained), WaitVerdict::TimedOut);
}

// A worker whose unit of work fails internally still signals completion (the
// scoped-release guard fires on unwinding too), so the wait must succeed
// rather than stall on it.
#[test]
fn failed_worker_still_counts_completed() {
    let mut s = Shutter::new();
    assert!(s.register(7));
    let timer = 100;
    assert_eq!(s.on_signal(7, timer), SignalOutcome::AllDone);
    assert!(s.is_empty());
}

// With no workers spawned, the wait is owed immediate success: the caller
// sees the empty set and never starts a timer.
#[test]
fn no_workers_returns_at_once() {
    let s = Shutter::new();
    assert!(s.is_empty());
}

// The race boundary: the timer's signal arrives first, but every worker's
// completion is already queued behind it — draining must resolve to success.
#[test]
fn timer_first_drain_reconciles_success() {
    let mut s = Shutter::new();
    assert!(s.register(1));
    assert!(s.register(2));
    let timer = 100;
    assert_eq!(s.on_signal(timer, timer), SignalOutcome::DeadlineHit);
    let drained: Vec<u64> = vec![2, 1];
    assert_eq!(s.resolve_deadline(&drained), WaitVerdict::AllDone);
    assert!(s.is_empty());
}

// A drained identity that was never registered indicates broken bookkeeping.
#[test]
fn drain_of_untracked_identity_is_violation() {
    let mut s = Shutter::new();
    assert!(s.register(1));
    let timer = 100;
    assert_eq!(s.on_signal(timer, timer), SignalOutcome::DeadlineHit);
    let drained: Vec<u64> = vec![1, 8];
    assert_eq!(s.resolve_deadline(&drained), WaitVerdict::Violation);
}

// The drain accounts for only part of the tracked set: a timeout, with the
// unfinished worker still tracked.
#[test]
fn partial_drain_times_out() {
    let mut s = Shutter::new();
    assert!(s.register(1));
    assert!(s.register(2));
    let timer = 100;
    assert_eq!(s.on_signal(timer, timer), SignalOutcome::DeadlineHit);
    let drained: Vec<u64> = vec![1];
    assert_eq!(s.resolve_deadline(&drained), WaitVerdict::TimedOut);
    assert_eq!(s.len(), 1);
}
