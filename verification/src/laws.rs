//! Laws of the deadline race, stated over whole wait calls.

use crate::shutter::drain;
use crate::shutter::drain_verdict;
use crate::shutter::WaitVerdict;
use vstd::prelude::*;

verus! {

broadcast use vstd::set::group_set_axioms;

/// The verdict of one whole wait call: `s` is the tracked set at entry,
/// `msgs` the identities received over the channel in arrival order, and
/// `timer_id` the deadline timer's own identity.  The wait succeeds as soon
/// as the tracked set is empty; a worker signal is reconciled and the wait
/// goes on; the timer's signal hands the rest of the queue to the drain; and
/// an untracked signal, or an exhausted channel, is a broken state.
pub open spec fn wait_result(s: Set<u64>, msgs: Seq<u64>, timer_id: u64) -> WaitVerdict
    decreases msgs.len(),
{
    if s.is_empty() {
        WaitVerdict::AllDone
    } else if msgs.len() == 0 {
        WaitVerdict::Violation
    } else if msgs[0] == timer_id {
        drain_verdict(s, msgs.skip(1))
    } else if s.contains(msgs[0]) {
        wait_result(s.remove(msgs[0]), msgs.skip(1), timer_id)
    } else {
        WaitVerdict::Violation
    }
}

/// Reconciling a run of distinct, tracked identities never fails and removes
/// exactly those identities: what remains of the tracked set is its
/// difference with the run.
pub proof fn lemma_drain_reconciles_members(s: Set<u64>, msgs: Seq<u64>)
    requires
        s.finite(),
        msgs.no_duplicates(),
        forall|i: int| 0 <= i < msgs.len() ==> s.contains(#[trigger] msgs[i]),
    ensures
        drain(s, msgs).1,
        drain(s, msgs).0 =~= s.difference(msgs.to_set()),
    decreases msgs.len(),
{
    if msgs.len() == 0 {
        assert(forall|a: u64| !(#[trigger] msgs.contains(a)));
        assert(s.difference(msgs.to_set()) =~= s);
    } else {
        let m = msgs[0];
        let s2 = s.remove(m);
        let rest = msgs.skip(1);
        assert forall|i: int| 0 <= i < rest.len() implies s2.contains(#[trigger] rest[i]) by {
            assert(rest[i] == msgs[i + 1]);
            assert(msgs[i + 1] != m);
        }
        lemma_drain_reconciles_members(s2, rest);
        assert forall|a: u64| #[trigger] msgs.contains(a) implies a == m || rest.contains(a) by {
            let i = choose|i: int| 0 <= i < msgs.len() && msgs[i] == a;
            if i > 0 {
                assert(rest[i - 1] == a);
            }
        }
        assert forall|a: u64| #[trigger] rest.contains(a) implies msgs.contains(a) by {
            let i = choose|i: int| 0 <= i < rest.len() && rest[i] == a;
            assert(msgs[i + 1] == a);
        }
        assert(msgs.contains(m));
        assert(s2.difference(rest.to_set()) =~= s.difference(msgs.to_set()));
    }
}

/// Idempotence of tracking: after any number of distinct workers are
/// registered, reconciling a completion signal from each of them — in any
/// arrival order — drains the tracked set to exactly empty, with every
/// removal succeeding.
pub proof fn lemma_full_drain_empties(s: Set<u64>, msgs: Seq<u64>)
    requires
        s.finite(),
        msgs.no_duplicates(),
        msgs.to_set() =~= s,
    ensures
        drain(s, msgs).1,
        drain(s, msgs).0.is_empty(),
{
    lemma_drain_reconciles_members(s, msgs);
    assert(s.difference(msgs.to_set()) =~= Set::<u64>::empty());
}

/// When every tracked worker's completion signal arrives before the deadline
/// timer's, the wait succeeds — whatever arrives on the channel afterwards.
/// `prefix` is the run of worker signals, one per tracked worker.
pub proof fn lemma_all_complete_before_deadline(
    s: Set<u64>,
    prefix: Seq<u64>,
    rest: Seq<u64>,
    timer_id: u64,
)
    requires
        s.finite(),
        !s.contains(timer_id),
        prefix.no_duplicates(),
        prefix.to_set() =~= s,
    ensures
        wait_result(s, prefix + rest, timer_id) == WaitVerdict::AllDone,
    decreases prefix.len(),
{
    if s.is_empty() {
    } else {
        assert(prefix.len() > 0) by {
            let w = choose|w: u64| s.contains(w);
            assert(prefix.contains(w));
        }
        let m = prefix[0];
        assert(prefix.contains(m));
        assert(s.contains(m));
        let s2 = s.remove(m);
        let tail = prefix.skip(1);
        assert((prefix + rest)[0] == m);
        assert((prefix + rest).skip(1) =~= tail + rest);
        assert forall|a: u64| #[trigger] tail.contains(a) implies s2.contains(a) by {
            let i = choose|i: int| 0 <= i < tail.len() && tail[i] == a;
            assert(prefix[i + 1] == a);
            assert(prefix.contains(a));
            assert(a != m);
        }
        assert forall|a: u64| s2.contains(a) implies #[trigger] tail.contains(a) by {
            assert(prefix.contains(a));
            let i = choose|i: int| 0 <= i < prefix.len() && prefix[i] == a;
            assert(i != 0);
            assert(tail[i - 1] == a);
        }
        assert(tail.to_set() =~= s2);
        lemma_all_complete_before_deadline(s2, tail, rest, timer_id);
    }
}

/// When at least one tracked worker never signals completion before the
/// deadline timer fires, the wait ends in exactly one Timeout verdict.
/// `msgs` is everything received over the channel: each signal is sent at
/// most once and comes from a tracked worker or from the timer, the timer's
/// is among them, and the straggler's is not.
pub proof fn lemma_straggler_times_out(s: Set<u64>, msgs: Seq<u64>, timer_id: u64, straggler: u64)
    requires
        s.finite(),
        !s.contains(timer_id),
        msgs.no_duplicates(),
        forall|i: int| 0 <= i < msgs.len() ==> s.contains(#[trigger] msgs[i]) || msgs[i] == timer_id,
        msgs.contains(timer_id),
        s.contains(straggler),
        !msgs.contains(straggler),
    ensures
        wait_result(s, msgs, timer_id) == WaitVerdict::TimedOut,
    decreases msgs.len(),
{
    assert(!s.is_empty()) by {
        assert(s.contains(straggler));
    }
    assert(msgs.len() > 0);
    let m = msgs[0];
    let rest = msgs.skip(1);
    if m == timer_id {
        assert forall|i: int| 0 <= i < rest.len() implies s.contains(#[trigger] rest[i]) by {
            assert(rest[i] == msgs[i + 1]);
            assert(msgs[i + 1] != m);
        }
        lemma_drain_reconciles_members(s, rest);
        let left = s.difference(rest.to_set());
        assert(left.contains(straggler)) by {
            if rest.contains(straggler) {
                let i = choose|i: int| 0 <= i < rest.len() && rest[i] == straggler;
                assert(msgs[i + 1] == straggler);
            }
        }
        assert(!drain(s, rest).0.is_empty());
    } else {
        assert(s.contains(m));
        let s2 = s.remove(m);
        assert(straggler != m) by {
            assert(msgs.contains(m));
        }
        assert(!msgs.contains(straggler));
        assert forall|i: int| 0 <= i < rest.len() implies s2.contains(#[trigger] rest[i]) || rest[i]
            == timer_id by {
            assert(rest[i] == msgs[i + 1]);
            assert(msgs[i + 1] != m);
        }
        assert(rest.contains(timer_id)) by {
            let i = choose|i: int| 0 <= i < msgs.len() && msgs[i] == timer_id;
            assert(i != 0);
            assert(rest[i - 1] == timer_id);
        }
        assert(!rest.contains(straggler)) by {
            if rest.contains(straggler) {
                let i = choose|i: int| 0 <= i < rest.len() && rest[i] == straggler;
                assert(msgs[i + 1] == straggler);
            }
        }
        lemma_straggler_times_out(s2, rest, timer_id, straggler);
    }
}

/// The race boundary: even when the timer's own signal is received first,
/// draining the queued completion signals of every tracked worker resolves
/// the wait as success, not as a timeout.
pub proof fn lemma_race_drains_to_success(s: Set<u64>, queued: Seq<u64>, timer_id: u64)
    requires
        s.finite(),
        queued.no_duplicates(),
        queued.to_set() =~= s,
    ensures
        wait_result(s, seq![timer_id] + queued, timer_id) == WaitVerdict::AllDone,
{
    if s.is_empty() {
    } else {
        let msgs = seq![timer_id] + queued;
        assert(msgs[0] == timer_id);
        assert(msgs.skip(1) =~= queued);
        lemma_full_drain_empties(s, queued);
    }
}

} // verus!
