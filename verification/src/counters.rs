//! Per-stage utilization accounting.
//!
//! Every stage owns one pair of accumulators: time spent waiting for input
//! (idle) and time spent waiting for output capacity (blocked).  The owning
//! stage adds each measured wait to the matching accumulator; a monitor
//! turns the totals into percentages of elapsed wall-clock time.

use vstd::prelude::*;

verus! {

/// Idle and blocked time, in milliseconds, accumulated by one stage.
/// Both accumulators only ever grow (saturating at the type's maximum).
pub struct StageCounters {
    idle_millis: u64,
    blocked_millis: u64,
}

/// Adding a wait saturates instead of wrapping, so an accumulator never
/// moves backwards.
pub open spec fn saturating_add_u64(a: u64, b: u64) -> u64 {
    if a + b <= u64::MAX {
        (a + b) as u64
    } else {
        u64::MAX
    }
}

impl StageCounters {
    pub closed spec fn idle_millis(self) -> u64 {
        self.idle_millis
    }

    pub closed spec fn blocked_millis(self) -> u64 {
        self.blocked_millis
    }

    /// A stage starts with nothing accumulated.
    pub fn new() -> (c: StageCounters)
        ensures
            c.idle_millis() == 0,
            c.blocked_millis() == 0,
    {
        StageCounters { idle_millis: 0, blocked_millis: 0 }
    }

    /// Exec mirror of `idle_millis`.
    pub fn idle(&self) -> (n: u64)
        ensures
            n == self.idle_millis(),
    {
        self.idle_millis
    }

    /// Exec mirror of `blocked_millis`.
    pub fn blocked(&self) -> (n: u64)
        ensures
            n == self.blocked_millis(),
    {
        self.blocked_millis
    }

    /// Account one wait for input: the idle accumulator grows by exactly
    /// the elapsed wait (saturating), and never decreases; blocked time is
    /// untouched.
    pub fn record_idle(&mut self, elapsed_millis: u64)
        ensures
            final(self).idle_millis() == saturating_add_u64(
                old(self).idle_millis(),
                elapsed_millis,
            ),
            final(self).idle_millis() >= old(self).idle_millis(),
            final(self).blocked_millis() == old(self).blocked_millis(),
    {
        self.idle_millis = if u64::MAX - self.idle_millis >= elapsed_millis {
            self.idle_millis + elapsed_millis
        } else {
            u64::MAX
        };
    }

    /// Account one wait for output capacity, symmetric to `record_idle`.
    pub fn record_blocked(&mut self, elapsed_millis: u64)
        ensures
            final(self).blocked_millis() == saturating_add_u64(
                old(self).blocked_millis(),
                elapsed_millis,
            ),
            final(self).blocked_millis() >= old(self).blocked_millis(),
            final(self).idle_millis() == old(self).idle_millis(),
    {
        self.blocked_millis = if u64::MAX - self.blocked_millis >= elapsed_millis {
            self.blocked_millis + elapsed_millis
        } else {
            u64::MAX
        };
    }
}

/// Integer percentage of elapsed time spent in one state, rounded down.
pub fn percent_of(part_millis: u64, elapsed_millis: u64) -> (p: u64)
    requires
        elapsed_millis > 0,
        part_millis <= elapsed_millis,
    ensures
        p == part_millis as int * 100 / (elapsed_millis as int),
        p <= 100,
{
    let wide: u128 = (part_millis as u128) * 100 / (elapsed_millis as u128);
    proof {
        assert(part_millis as int * 100 / (elapsed_millis as int) <= 100) by (nonlinear_arith)
            requires
                elapsed_millis > 0,
                part_millis <= elapsed_millis,
        ;
    }
    wide as u64
}

/// A monitor sample for one stage: the idle and blocked percentages of the
/// elapsed wall-clock time, or `None` when the inputs cannot describe a
/// running stage (no time elapsed yet, or an accumulator ahead of the
/// clock that measures it).
pub fn utilization_sample(c: &StageCounters, elapsed_millis: u64) -> (r: Option<(u64, u64)>)
    ensures
        r is Some <==> (elapsed_millis > 0 && c.idle_millis() <= elapsed_millis
            && c.blocked_millis() <= elapsed_millis),
        r is Some ==> r.unwrap().0 == c.idle_millis() as int * 100 / (elapsed_millis as int),
        r is Some ==> r.unwrap().1 == c.blocked_millis() as int * 100 / (elapsed_millis as int),
{
    if elapsed_millis > 0 && c.idle() <= elapsed_millis && c.blocked() <= elapsed_millis {
        let idle_pct = percent_of(c.idle(), elapsed_millis);
        let blocked_pct = percent_of(c.blocked(), elapsed_millis);
        Some((idle_pct, blocked_pct))
    } else {
        None
    }
}

} // verus!
