use vstd::prelude::*;

verus! {

/// Nanoseconds in one second.
pub const NANOS_PER_SECOND: u64 = 1_000_000_000;

/// Frame advances that are due once `elapsed` is added to `pending`.
pub open spec fn due_count(pending: int, elapsed: int, period: int) -> int {
    (pending + elapsed) / period
}

/// Time left in the accumulator after the due advances are taken.
pub open spec fn leftover(pending: int, elapsed: int, period: int) -> int {
    (pending + elapsed) % period
}

/// Length of one cadence interval, in nanoseconds, for `fps` frames per second.
pub open spec fn period_of(fps: u32) -> int {
    NANOS_PER_SECOND as int / fps as int
}

pub fn period_nanos(fps: u32) -> (r: u64)
    requires
        fps > 0,
    ensures
        r as int == period_of(fps),
{
    NANOS_PER_SECOND / (fps as u64)
}

/// A fixed-rate gate: it gathers elapsed time and hands out one frame advance
/// per whole cadence interval, catching up when polls are far apart.
pub struct AnimationClock {
    pending: u64,
}

impl AnimationClock {
    /// Elapsed time, in nanoseconds, not yet consumed by an advance.
    pub closed spec fn pending(&self) -> nat {
        self.pending as nat
    }

    pub fn new() -> (r: Self)
        ensures
            r.pending() == 0,
    {
        AnimationClock { pending: 0 }
    }

    pub fn pending_nanos(&self) -> (r: u64)
        ensures
            r == self.pending(),
    {
        self.pending
    }

    /// Adds `elapsed` nanoseconds to the accumulator.
    pub fn accumulate(&mut self, elapsed: u64)
        requires
            old(self).pending() + elapsed <= u64::MAX,
        ensures
            final(self).pending() == old(self).pending() + elapsed,
    {
        self.pending = self.pending + elapsed;
    }

    /// Consumes every whole interval of `period` nanoseconds from the
    /// accumulator and returns how many were consumed.
    pub fn take_due(&mut self, period: u64) -> (n: u64)
        requires
            period > 0,
        ensures
            n == old(self).pending() / (period as nat),
            final(self).pending() == old(self).pending() % (period as nat),
    {
        let ghost start = self.pending as int;
        let mut n: u64 = 0;
        while self.pending >= period
            invariant
                period > 0,
                start == n as int * period as int + self.pending as int,
                n as int <= start,
                start <= u64::MAX,
            decreases self.pending,
        {
            proof {
                assert((n as int + 1) * period as int <= start) by (nonlinear_arith)
                    requires
                        start == n as int * period as int + self.pending as int,
                        self.pending >= period,
                ;
                assert(n as int + 1 <= (n as int + 1) * period as int) by (nonlinear_arith)
                    requires
                        period >= 1,
                        n >= 0,
                ;
            }
            self.pending = self.pending - period;
            n = n + 1;
            assert(start == n as int * period as int + self.pending as int) by (nonlinear_arith)
                requires
                    start == (n as int - 1) * period as int + self.pending as int + period as int,
            ;
        }
        proof {
            vstd::arithmetic::div_mod::lemma_fundamental_div_mod_converse(
                start,
                period as int,
                n as int,
                self.pending as int,
            );
        }
        n
    }

    /// Adds `elapsed` nanoseconds and takes the advances that are then due.
    pub fn poll(&mut self, elapsed: u64, period: u64) -> (n: u64)
        requires
            old(self).pending() + elapsed <= u64::MAX,
            period > 0,
        ensures
            n == due_count(old(self).pending() as int, elapsed as int, period as int),
            final(self).pending() == leftover(old(self).pending() as int, elapsed as int, period as int),
    {
        self.accumulate(elapsed);
        self.take_due(period)
    }
}

/// Catch-up: from an empty accumulator, an elapsed time of `k` whole intervals
/// yields exactly `k` advances and leaves `elapsed mod period`, nothing, behind.
pub proof fn lemma_catch_up(k: int, period: int)
    requires
        k >= 0,
        period > 0,
    ensures
        due_count(0, k * period, period) == k,
        leftover(0, k * period, period) == (k * period) % period,
        leftover(0, k * period, period) == 0,
{
    vstd::arithmetic::div_mod::lemma_fundamental_div_mod_converse(k * period, period, k, 0);
}

/// From an empty accumulator, any elapsed time yields `elapsed / period`
/// advances and leaves `elapsed mod period`, which is under one interval.
pub proof fn lemma_poll_from_empty(elapsed: int, period: int)
    requires
        elapsed >= 0,
        period > 0,
    ensures
        period * due_count(0, elapsed, period) + leftover(0, elapsed, period) == elapsed,
        0 <= leftover(0, elapsed, period) < period,
{
    vstd::arithmetic::div_mod::lemma_fundamental_div_mod(elapsed, period);
}

} // verus!
