//! Running statistics over a sequence of probe outcomes.
//!
//! A bucket counts attempts, round trips and losses and keeps the least, the
//! greatest and the sum of the round-trip latencies. The mean is the exact
//! fraction of that sum over the number of round trips.

use crate::fraction::Fraction;
use vstd::prelude::*;

verus! {

/// What `latency_min` holds while no round trip has been fed: the greatest
/// `u32`, so that the first round trip always sets the minimum.
pub const NO_LATENCY: u32 = 0xffff_ffff;

/// The statistics of a bucket as mathematical integers.
pub struct Stats {
    /// Outcomes fed, round trips and losses together.
    pub attempts: nat,
    /// Round trips fed.
    pub successes: nat,
    /// Losses fed.
    pub losses: nat,
    /// Sum of the latencies of the round trips.
    pub latency_sum: nat,
    /// Least latency of a round trip, `NO_LATENCY` where there is none.
    pub latency_min: nat,
    /// Greatest latency of a round trip, zero where there is none.
    pub latency_max: nat,
}

impl Stats {
    /// The statistics of no outcome at all.
    pub open spec fn empty() -> Stats {
        Stats {
            attempts: 0,
            successes: 0,
            losses: 0,
            latency_sum: 0,
            latency_min: NO_LATENCY as nat,
            latency_max: 0,
        }
    }

    /// The statistics after one more round trip of the given latency.
    pub open spec fn feed_latency(self, latency: nat) -> Stats {
        Stats {
            attempts: self.attempts + 1,
            successes: self.successes + 1,
            losses: self.losses,
            latency_sum: self.latency_sum + latency,
            latency_min: if latency < self.latency_min {
                latency
            } else {
                self.latency_min
            },
            latency_max: if latency > self.latency_max {
                latency
            } else {
                self.latency_max
            },
        }
    }

    /// The statistics after one more loss: the latency fields stay.
    pub open spec fn feed_lost_ping(self) -> Stats {
        Stats { attempts: self.attempts + 1, losses: self.losses + 1, ..self }
    }

    /// The statistics after one more outcome: `Some` latency for a round
    /// trip, `None` for a loss.
    pub open spec fn feed(self, sample: Option<u32>) -> Stats {
        match sample {
            Some(latency) => self.feed_latency(latency as nat),
            None => self.feed_lost_ping(),
        }
    }

    /// Losses per hundred attempts as numerator and denominator: zero over
    /// one where nothing was attempted.
    pub open spec fn lost_percentage(self) -> (nat, nat) {
        if self.attempts == 0 {
            (0, 1)
        } else {
            (100 * self.losses, self.attempts)
        }
    }

    /// The mean latency of the round trips as numerator and denominator:
    /// zero over one where there was none.
    pub open spec fn latency_avg(self) -> (nat, nat) {
        if self.successes == 0 {
            (0, 1)
        } else {
            (self.latency_sum, self.successes)
        }
    }

    /// What holds of the statistics of every sequence of outcomes.
    pub open spec fn valid(self) -> bool {
        &&& self.attempts == self.successes + self.losses
        &&& self.latency_max <= NO_LATENCY
        &&& self.successes == 0 ==> {
            &&& self.latency_sum == 0
            &&& self.latency_min == NO_LATENCY
            &&& self.latency_max == 0
        }
        &&& self.successes > 0 ==> {
            &&& self.latency_min <= self.latency_max
            &&& self.latency_min * self.successes <= self.latency_sum
            &&& self.latency_sum <= self.latency_max * self.successes
        }
    }
}

/// Aggregated outcomes of the probes of one span of time.
#[derive(Clone, Copy, Debug)]
pub struct PingBucket {
    ping_attempts: u32,
    ping_count: u32,
    pings_lost: u32,
    latency_sum: u64,
    latency_min: u32,
    latency_max: u32,
}

impl View for PingBucket {
    type V = Stats;

    closed spec fn view(&self) -> Stats {
        Stats {
            attempts: self.ping_attempts as nat,
            successes: self.ping_count as nat,
            losses: self.pings_lost as nat,
            latency_sum: self.latency_sum as nat,
            latency_min: self.latency_min as nat,
            latency_max: self.latency_max as nat,
        }
    }
}

impl PingBucket {
    /// The bucket holds the statistics of some sequence of outcomes.
    pub open spec fn wf(&self) -> bool {
        self@.valid()
    }

    /// A bucket that no outcome was fed into.
    pub fn new() -> (bucket: PingBucket)
        ensures
            bucket@ == Stats::empty(),
            bucket.wf(),
    {
        PingBucket {
            ping_attempts: 0,
            ping_count: 0,
            pings_lost: 0,
            latency_sum: 0,
            latency_min: NO_LATENCY,
            latency_max: 0,
        }
    }

    /// Feeds a round trip that took `latency` milliseconds.
    pub fn feed_latency(&mut self, latency: u32)
        requires
            old(self).wf(),
            old(self)@.attempts < u32::MAX,
        ensures
            final(self)@ == old(self)@.feed_latency(latency as nat),
            final(self).wf(),
    {
        proof {
            lemma_feed_latency_valid(self@, latency);
            assert(self.latency_max * self.ping_count <= 0xffff_ffff * 0xffff_fffe)
                by (nonlinear_arith)
                requires
                    self.latency_max <= 0xffff_ffff,
                    self.ping_count <= 0xffff_fffe,
            ;
        }
        if latency < self.latency_min {
            self.latency_min = latency;
        }
        if latency > self.latency_max {
            self.latency_max = latency;
        }
        self.latency_sum = self.latency_sum + latency as u64;
        self.ping_attempts = self.ping_attempts + 1;
        self.ping_count = self.ping_count + 1;
    }

    /// Feeds a probe that got no reply.
    pub fn feed_lost_ping(&mut self)
        requires
            old(self).wf(),
            old(self)@.attempts < u32::MAX,
        ensures
            final(self)@ == old(self)@.feed_lost_ping(),
            final(self).wf(),
    {
        self.pings_lost = self.pings_lost + 1;
        self.ping_attempts = self.ping_attempts + 1;
    }

    /// Losses per hundred attempts, exactly; zero where nothing was
    /// attempted.
    pub fn lost_percentage(&self) -> (rate: Fraction)
        ensures
            rate@ == self@.lost_percentage(),
    {
        if self.ping_attempts == 0 {
            Fraction::zero()
        } else {
            Fraction::new(100 * (self.pings_lost as u64), self.ping_attempts as u64)
        }
    }

    /// The mean latency of the round trips, exactly; zero where there was
    /// none.
    pub fn latency_avg(&self) -> (mean: Fraction)
        ensures
            mean@ == self@.latency_avg(),
    {
        if self.ping_count == 0 {
            Fraction::zero()
        } else {
            Fraction::new(self.latency_sum, self.ping_count as u64)
        }
    }

    /// Outcomes fed, round trips and losses together.
    pub fn ping_attempts(&self) -> (n: u32)
        ensures
            n == self@.attempts,
    {
        self.ping_attempts
    }

    /// Round trips fed.
    pub fn ping_count(&self) -> (n: u32)
        ensures
            n == self@.successes,
    {
        self.ping_count
    }

    /// Losses fed.
    pub fn pings_lost(&self) -> (n: u32)
        ensures
            n == self@.losses,
    {
        self.pings_lost
    }

    /// Least latency of a round trip, `NO_LATENCY` where there is none.
    pub fn latency_min(&self) -> (n: u32)
        ensures
            n == self@.latency_min,
    {
        self.latency_min
    }

    /// Greatest latency of a round trip, zero where there is none.
    pub fn latency_max(&self) -> (n: u32)
        ensures
            n == self@.latency_max,
    {
        self.latency_max
    }
}

/// Feeding a round trip keeps statistics valid.
pub proof fn lemma_feed_latency_valid(stats: Stats, latency: u32)
    requires
        stats.valid(),
    ensures
        stats.feed_latency(latency as nat).valid(),
{
    let next = stats.feed_latency(latency as nat);
    let n = stats.successes;
    assert(next.latency_min * n <= stats.latency_min * n) by (nonlinear_arith)
        requires
            next.latency_min <= stats.latency_min,
    ;
    assert(stats.latency_max * n <= next.latency_max * n) by (nonlinear_arith)
        requires
            stats.latency_max <= next.latency_max,
    ;
    if n == 0 {
        assert(stats.latency_min * n == 0 && stats.latency_max * n == 0) by (nonlinear_arith)
            requires
                n == 0,
        ;
    }
    assert(next.latency_min * (n + 1) == next.latency_min * n + next.latency_min)
        by (nonlinear_arith);
    assert(next.latency_max * (n + 1) == next.latency_max * n + next.latency_max)
        by (nonlinear_arith);
}

} // verus!
