//! The tracker of spawned-thread identities and the deadline-race step logic.
//!
//! A [`Shutter`] owns the set of identities of worker threads that were spawned
//! and whose completion has not yet been reconciled.  The host harness funnels
//! every completion signal — a thread identity — through [`Shutter::on_signal`],
//! which disambiguates workers from the deadline timer; once the timer has
//! fired, the already-queued signals are reconciled by
//! [`Shutter::resolve_deadline`].

use vstd::hash_set::HashSetWithView;
use vstd::prelude::*;

verus! {

broadcast use vstd::std_specs::hash::group_hash_axioms, vstd::set::group_set_axioms;

/// What the wait loop must do after one completion signal has been received.
#[derive(Clone, Copy, Debug, PartialEq, Eq, Structural)]
pub enum SignalOutcome {
    /// A tracked worker finished but others are still outstanding: keep receiving.
    Waiting,
    /// The last outstanding worker finished: cancel the timer and succeed.
    AllDone,
    /// The deadline timer itself fired: drain the queued signals and resolve.
    DeadlineHit,
    /// The identity is neither tracked nor the timer's: bookkeeping is broken.
    Violation,
}

/// The terminal verdict of a wait call once the deadline timer has fired.
#[derive(Clone, Copy, Debug, PartialEq, Eq, Structural)]
pub enum WaitVerdict {
    /// Every tracked worker had already finished: the wait succeeds.
    AllDone,
    /// At least one tracked worker is still unfinished: a stalled thread.
    TimedOut,
    /// A drained identity was not tracked: bookkeeping is broken.
    Violation,
}

/// The result of reconciling the queued identities `msgs`, in order, against
/// the tracked set `s`: the set that remains, and whether every identity was
/// indeed tracked at its turn.  Reconciling stops at the first identity that
/// is not.
pub open spec fn drain(s: Set<u64>, msgs: Seq<u64>) -> (Set<u64>, bool)
    decreases msgs.len(),
{
    if msgs.len() == 0 {
        (s, true)
    } else if s.contains(msgs[0]) {
        drain(s.remove(msgs[0]), msgs.skip(1))
    } else {
        (s, false)
    }
}

/// The verdict owed once the timer has fired with tracked set `s` and the
/// identities `msgs` still queued: a violation if one of them was not
/// tracked, success if they account for every tracked worker, and a timeout
/// otherwise.
pub open spec fn drain_verdict(s: Set<u64>, msgs: Seq<u64>) -> WaitVerdict {
    if !drain(s, msgs).1 {
        WaitVerdict::Violation
    } else if drain(s, msgs).0.is_empty() {
        WaitVerdict::AllDone
    } else {
        WaitVerdict::TimedOut
    }
}

/// Tracks the identities of the worker threads spawned through one watchdog
/// whose completion signals have not yet been reconciled by a wait call.
///
/// The view of a `Shutter` is that set of identities.
pub struct Shutter {
    ids: HashSetWithView<u64>,
}

impl View for Shutter {
    type V = Set<u64>;

    closed spec fn view(&self) -> Set<u64> {
        self.ids@
    }
}

impl Shutter {
    /// The tracked set is finite: it grew one registration at a time.
    pub closed spec fn wf(&self) -> bool {
        self.ids@.finite()
    }

    /// Creates a tracker with no registered workers.
    pub fn new() -> (s: Shutter)
        ensures
            s@ == Set::<u64>::empty(),
            s.wf(),
    {
        Shutter { ids: HashSetWithView::new() }
    }

    /// Registers the identity of a newly spawned worker.  Returns whether the
    /// identity was fresh; registering one already tracked is a caller's
    /// contract violation (identities are unique while their registration is
    /// pending) and leaves the set unchanged.
    pub fn register(&mut self, id: u64) -> (fresh: bool)
        requires
            old(self).wf(),
        ensures
            final(self).wf(),
            fresh == !old(self)@.contains(id),
            final(self)@ == old(self)@.insert(id),
            !fresh ==> final(self)@ == old(self)@,
    {
        let fresh = self.ids.insert(id);
        proof {
            if !fresh {
                assert(old(self)@.insert(id) =~= old(self)@);
            }
        }
        fresh
    }

    /// Decides what one received completion signal means.  The signal is the
    /// identity `msg`; `timer_id` is the identity of the deadline timer
    /// spawned by the current wait call.  The timer's own signal means the
    /// deadline elapsed and the queued signals must now be drained; any other
    /// identity is a worker completion and is reconciled against the tracked
    /// set, succeeding the wait when the set empties.
    pub fn on_signal(&mut self, msg: u64, timer_id: u64) -> (r: SignalOutcome)
        requires
            old(self).wf(),
        ensures
            final(self).wf(),
            msg == timer_id ==> final(self)@ == old(self)@ && r == SignalOutcome::DeadlineHit,
            msg != timer_id && old(self)@.contains(msg) ==> {
                &&& final(self)@ == old(self)@.remove(msg)
                &&& (r == SignalOutcome::AllDone <==> final(self)@.is_empty())
                &&& (r == SignalOutcome::Waiting <==> !final(self)@.is_empty())
            },
            msg != timer_id && !old(self)@.contains(msg) ==> final(self)@ == old(self)@ && r
                == SignalOutcome::Violation,
    {
        if msg == timer_id {
            SignalOutcome::DeadlineHit
        } else if self.ids.remove(&msg) {
            if self.ids.is_empty() {
                SignalOutcome::AllDone
            } else {
                SignalOutcome::Waiting
            }
        } else {
            proof {
                assert(old(self)@.remove(msg) =~= old(self)@);
            }
            SignalOutcome::Violation
        }
    }

    /// Resolves the wait once the deadline timer has fired: `drained` holds
    /// the identities that were already queued on the channel, in arrival
    /// order.  Each is reconciled against the tracked set; an untracked one
    /// is a violation.  The wait succeeds only if the drained signals account
    /// for every tracked worker — the last-moment race where the workers
    /// finished essentially together with the deadline.
    pub fn resolve_deadline(&mut self, drained: &Vec<u64>) -> (v: WaitVerdict)
        requires
            old(self).wf(),
        ensures
            final(self).wf(),
            final(self)@ == drain(old(self)@, drained@).0,
            v == drain_verdict(old(self)@, drained@),
    {
        let mut i: usize = 0;
        proof {
            assert(drained@.skip(0) =~= drained@);
        }
        while i < drained.len()
            invariant
                self.wf(),
                i <= drained.len(),
                drain(old(self)@, drained@) == drain(self@, drained@.skip(i as int)),
            decreases drained.len() - i,
        {
            let ghost pre = self@;
            let id = drained[i];
            if !self.ids.remove(&id) {
                proof {
                    assert(pre.remove(id) =~= pre);
                    assert(drained@.skip(i as int)[0] == id);
                    assert(drain(pre, drained@.skip(i as int)) == (pre, false));
                }
                return WaitVerdict::Violation;
            }
            proof {
                assert(drained@.skip(i as int).skip(1) =~= drained@.skip(i as int + 1));
            }
            i += 1;
        }
        if self.ids.is_empty() {
            WaitVerdict::AllDone
        } else {
            WaitVerdict::TimedOut
        }
    }

    /// The number of registered workers not yet reconciled.
    pub fn len(&self) -> (n: usize)
        ensures
            n == self@.len(),
    {
        self.ids.len()
    }

    /// Whether every registered worker has been reconciled.  A wait call on
    /// an empty tracker is owed immediate success, with no timer spawned.
    pub fn is_empty(&self) -> (e: bool)
        ensures
            e == self@.is_empty(),
    {
        self.ids.is_empty()
    }
}

} // verus!
