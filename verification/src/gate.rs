//! Producer-side rate gate: bounds how often a frame is emitted,
//! independently of how often the sampler is invoked.
//!
//! The rate gate keeps the timestamp of the last accepted invocation and lets an
//! invocation through exactly when at least `interval_ms` milliseconds have
//! passed since then. The very first invocation is always let through. The
//! gate only caps the emission rate: a sampler that is invoked less often
//! than `interval_ms` is never delayed further.

use vstd::prelude::*;

verus! {

/// Whether an invocation at `now_ms` passes the rate gate, given the timestamp of
/// the last accepted invocation (`None` when nothing was accepted yet).
pub open spec fn gate_passes(last_emit_ms: Option<u64>, now_ms: u64, interval_ms: u64) -> bool {
    match last_emit_ms {
        None => true,
        Some(last) => now_ms - last >= interval_ms,
    }
}

/// The accept/suppress decisions the rate gate makes over a whole sequence of
/// invocation timestamps: the greedy subsequence where each accepted
/// timestamp is at least `interval_ms` past the previously accepted one.
pub open spec fn greedy_marks(
    last_emit_ms: Option<u64>,
    interval_ms: u64,
    ticks: Seq<u64>,
) -> Seq<bool>
    decreases ticks.len(),
{
    if ticks.len() == 0 {
        Seq::empty()
    } else {
        let emit = gate_passes(last_emit_ms, ticks[0], interval_ms);
        let next = if emit {
            Some(ticks[0])
        } else {
            last_emit_ms
        };
        seq![emit] + greedy_marks(next, interval_ms, ticks.drop_first())
    }
}

/// The rate gate state after a whole sequence of invocations.
pub open spec fn greedy_last(
    last_emit_ms: Option<u64>,
    interval_ms: u64,
    ticks: Seq<u64>,
) -> Option<u64>
    decreases ticks.len(),
{
    if ticks.len() == 0 {
        last_emit_ms
    } else {
        let emit = gate_passes(last_emit_ms, ticks[0], interval_ms);
        let next = if emit {
            Some(ticks[0])
        } else {
            last_emit_ms
        };
        greedy_last(next, interval_ms, ticks.drop_first())
    }
}

/// Throttle on the producer's emit path.
pub struct RateGate {
    /// Minimal number of milliseconds between two accepted invocations.
    pub interval_ms: u64,
    /// Capture time of the last accepted invocation, `None` before the first.
    pub last_emit_ms: Option<u64>,
}

impl RateGate {
    /// A fresh gate that will accept its first invocation.
    pub fn new(interval_ms: u64) -> (gate: Self)
        ensures
            gate.interval_ms == interval_ms,
            gate.last_emit_ms is None,
    {
        RateGate { interval_ms, last_emit_ms: None }
    }

    /// Decide whether a frame may be emitted at `now_ms`. The rate gate state is
    /// advanced only on an accepted invocation, and it is advanced before any
    /// costly sampling or sending work the caller does afterwards.
    pub fn try_emit(&mut self, now_ms: u64) -> (emit: bool)
        ensures
            emit == gate_passes(old(self).last_emit_ms, now_ms, old(self).interval_ms),
            final(self).interval_ms == old(self).interval_ms,
            final(self).last_emit_ms == if emit {
                Some(now_ms)
            } else {
                old(self).last_emit_ms
            },
    {
        let emit = match self.last_emit_ms {
            None => true,
            Some(last) => now_ms >= last && now_ms - last >= self.interval_ms,
        };
        if emit {
            self.last_emit_ms = Some(now_ms);
        }
        emit
    }

    /// Run the rate gate over a whole sequence of invocation timestamps and
    /// return the accept/suppress decision for each one.
    ///
    /// The decisions are exactly the greedy subsequence of `ticks`: a tick is
    /// accepted if and only if it is at least `interval_ms` past the last
    /// accepted tick (the first tick is always accepted on a fresh gate).
    pub fn run_ticks(&mut self, ticks: &Vec<u64>) -> (marks: Vec<bool>)
        ensures
            marks@ == greedy_marks(old(self).last_emit_ms, old(self).interval_ms, ticks@),
            final(self).interval_ms == old(self).interval_ms,
            final(self).last_emit_ms == greedy_last(
                old(self).last_emit_ms,
                old(self).interval_ms,
                ticks@,
            ),
    {
        let ghost last0 = self.last_emit_ms;
        let ghost interval = self.interval_ms;
        let mut marks: Vec<bool> = Vec::new();
        let mut i: usize = 0;
        proof {
            assert(ticks@.skip(0) =~= ticks@);
            assert(marks@ + greedy_marks(last0, interval, ticks@) =~= greedy_marks(
                last0,
                interval,
                ticks@,
            ));
        }
        while i < ticks.len()
            invariant
                i <= ticks@.len(),
                self.interval_ms == interval,
                greedy_marks(last0, interval, ticks@) == marks@ + greedy_marks(
                    self.last_emit_ms,
                    interval,
                    ticks@.skip(i as int),
                ),
                greedy_last(last0, interval, ticks@) == greedy_last(
                    self.last_emit_ms,
                    interval,
                    ticks@.skip(i as int),
                ),
            decreases ticks@.len() - i,
        {
            let ghost pre_last = self.last_emit_ms;
            let ghost rest = ticks@.skip(i as int);
            let emit = self.try_emit(ticks[i]);
            marks.push(emit);
            proof {
                assert(rest[0] == ticks@[i as int]);
                assert(rest.drop_first() =~= ticks@.skip(i as int + 1));
                assert(greedy_marks(pre_last, interval, rest) == seq![emit] + greedy_marks(
                    self.last_emit_ms,
                    interval,
                    ticks@.skip(i as int + 1),
                ));
                assert(marks@ + greedy_marks(self.last_emit_ms, interval, ticks@.skip(i as int + 1))
                    =~= (marks@.drop_last() + seq![emit]) + greedy_marks(
                    self.last_emit_ms,
                    interval,
                    ticks@.skip(i as int + 1),
                ));
            }
            i = i + 1;
        }
        proof {
            assert(ticks@.skip(i as int) =~= Seq::<u64>::empty());
            assert(marks@ + Seq::<bool>::empty() =~= marks@);
        }
        marks
    }
}

} // verus!
