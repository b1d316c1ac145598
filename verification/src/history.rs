//! The statistics of a whole sequence of outcomes, stated directly, and the
//! laws that tie them to feeding a bucket one outcome at a time.
//!
//! An outcome is `Some` latency for a round trip and `None` for a loss.

use crate::bucket::{lemma_feed_latency_valid, Stats, NO_LATENCY};
use vstd::prelude::*;

verus! {

/// The statistics after feeding `samples` in order into an empty bucket.
pub open spec fn replay(samples: Seq<Option<u32>>) -> Stats
    decreases samples.len(),
{
    if samples.len() == 0 {
        Stats::empty()
    } else {
        replay(samples.drop_last()).feed(samples.last())
    }
}

/// The number of losses among `samples`.
pub open spec fn losses_in(samples: Seq<Option<u32>>) -> nat
    decreases samples.len(),
{
    if samples.len() == 0 {
        0
    } else if samples.last() is None {
        losses_in(samples.drop_last()) + 1
    } else {
        losses_in(samples.drop_last())
    }
}

/// The latencies of the round trips among `samples`, in order.
pub open spec fn round_trips(samples: Seq<Option<u32>>) -> Seq<u32>
    decreases samples.len(),
{
    if samples.len() == 0 {
        Seq::empty()
    } else {
        match samples.last() {
            Some(latency) => round_trips(samples.drop_last()).push(latency),
            None => round_trips(samples.drop_last()),
        }
    }
}

/// A sequence of round trips with the given latencies and no loss.
pub open spec fn all_replies(latencies: Seq<u32>) -> Seq<Option<u32>> {
    Seq::new(latencies.len(), |i: int| Some(latencies[i]))
}

/// The sum of `latencies`.
pub open spec fn total(latencies: Seq<u32>) -> nat
    decreases latencies.len(),
{
    if latencies.len() == 0 {
        0
    } else {
        total(latencies.drop_last()) + latencies.last() as nat
    }
}

/// The least of `latencies`, `NO_LATENCY` for none.
pub open spec fn least(latencies: Seq<u32>) -> nat
    decreases latencies.len(),
{
    if latencies.len() == 0 {
        NO_LATENCY as nat
    } else if (latencies.last() as nat) < least(latencies.drop_last()) {
        latencies.last() as nat
    } else {
        least(latencies.drop_last())
    }
}

/// The greatest of `latencies`, zero for none.
pub open spec fn greatest(latencies: Seq<u32>) -> nat
    decreases latencies.len(),
{
    if latencies.len() == 0 {
        0
    } else if (latencies.last() as nat) > greatest(latencies.drop_last()) {
        latencies.last() as nat
    } else {
        greatest(latencies.drop_last())
    }
}

/// The statistics of `samples`, each field stated over the whole sequence.
pub open spec fn summary(samples: Seq<Option<u32>>) -> Stats {
    Stats {
        attempts: samples.len(),
        successes: round_trips(samples).len(),
        losses: losses_in(samples),
        latency_sum: total(round_trips(samples)),
        latency_min: least(round_trips(samples)),
        latency_max: greatest(round_trips(samples)),
    }
}

/// Feeding outcomes one by one gives the statistics of the whole sequence.
pub proof fn lemma_replay_is_summary(samples: Seq<Option<u32>>)
    ensures
        replay(samples) == summary(samples),
    decreases samples.len(),
{
    if samples.len() > 0 {
        let before = samples.drop_last();
        lemma_replay_is_summary(before);
        match samples.last() {
            Some(latency) => {
                let trips = round_trips(samples);
                assert(trips.drop_last() =~= round_trips(before));
                assert(trips.last() == latency);
            },
            None => {},
        }
    }
}

/// The least and the greatest of a non-empty sequence are among its items
/// and bound every item.
pub proof fn lemma_least_greatest(latencies: Seq<u32>)
    requires
        latencies.len() > 0,
    ensures
        exists|i: int| 0 <= i < latencies.len() && latencies[i] == least(latencies),
        exists|i: int| 0 <= i < latencies.len() && latencies[i] == greatest(latencies),
        forall|i: int|
            0 <= i < latencies.len() ==> least(latencies) <= #[trigger] latencies[i] <= greatest(
                latencies,
            ),
    decreases latencies.len(),
{
    let before = latencies.drop_last();
    let end = latencies.len() - 1;
    if before.len() == 0 {
        assert(latencies[end] == least(latencies));
        assert(latencies[end] == greatest(latencies));
    } else {
        lemma_least_greatest(before);
        let i = choose|i: int| 0 <= i < before.len() && before[i] == least(before);
        let j = choose|j: int| 0 <= j < before.len() && before[j] == greatest(before);
        if (latencies.last() as nat) < least(before) {
            assert(latencies[end] == least(latencies));
        } else {
            assert(latencies[i] == least(latencies));
        }
        if (latencies.last() as nat) > greatest(before) {
            assert(latencies[end] == greatest(latencies));
        } else {
            assert(latencies[j] == greatest(latencies));
        }
        assert forall|k: int| 0 <= k < latencies.len() implies least(latencies)
            <= #[trigger] latencies[k] <= greatest(latencies) by {
            if k < end {
                assert(before[k] == latencies[k]);
            }
        }
    }
}

/// A sequence of round trips holds no loss, and its latencies are the given
/// ones.
pub proof fn lemma_all_replies(latencies: Seq<u32>)
    ensures
        round_trips(all_replies(latencies)) == latencies,
        losses_in(all_replies(latencies)) == 0,
    decreases latencies.len(),
{
    let samples = all_replies(latencies);
    if latencies.len() > 0 {
        let before = latencies.drop_last();
        lemma_all_replies(before);
        assert(samples.drop_last() =~= all_replies(before));
        assert(samples.last() == Some(latencies.last()));
        assert(before.push(latencies.last()) =~= latencies);
    } else {
        assert(round_trips(samples) =~= latencies);
    }
}

/// The statistics of every sequence of outcomes are valid: attempts are
/// round trips plus losses, and once there is a round trip the minimum is
/// no greater than the mean, and the mean no greater than the maximum.
pub proof fn lemma_replay_valid(samples: Seq<Option<u32>>)
    ensures
        replay(samples).valid(),
    decreases samples.len(),
{
    if samples.len() > 0 {
        lemma_replay_valid(samples.drop_last());
        match samples.last() {
            Some(latency) => {
                lemma_feed_latency_valid(replay(samples.drop_last()), latency);
            },
            None => {},
        }
    }
}

/// Whatever the order of round trips and losses, the loss rate is a hundred
/// times the number of losses over the number of outcomes, and zero where
/// there is no outcome.
pub proof fn lemma_loss_rate(samples: Seq<Option<u32>>)
    ensures
        replay(samples).attempts == samples.len(),
        replay(samples).losses == losses_in(samples),
        samples.len() == 0 ==> replay(samples).lost_percentage() == (0nat, 1nat),
        samples.len() > 0 ==> replay(samples).lost_percentage() == (
            100 * losses_in(samples),
            samples.len(),
        ),
{
    lemma_replay_is_summary(samples);
}

/// After any sequence of outcomes with a round trip among them, the mean is
/// the sum of the round-trip latencies over their number.
pub proof fn lemma_mean_is_arithmetic(samples: Seq<Option<u32>>)
    requires
        round_trips(samples).len() > 0,
    ensures
        replay(samples).latency_avg() == (
            total(round_trips(samples)),
            round_trips(samples).len(),
        ),
{
    lemma_replay_is_summary(samples);
}

/// After round trips with the latencies `l1..ln` and nothing else, the mean
/// is `(l1 + ... + ln) / n`.
pub proof fn lemma_mean_of_replies(latencies: Seq<u32>)
    requires
        latencies.len() > 0,
    ensures
        replay(all_replies(latencies)).latency_avg() == (total(latencies), latencies.len()),
{
    lemma_all_replies(latencies);
    lemma_replay_is_summary(all_replies(latencies));
}

/// The first round trip becomes the mean exactly. Each later one moves the
/// mean by the `n`-th part of its distance from the old mean, `n` counting
/// the round trips with the new one: `avg' = avg + (latency - avg) / n`,
/// stated here with both sides multiplied by the old and the new count.
pub proof fn lemma_mean_step(stats: Stats, latency: u32)
    requires
        stats.valid(),
    ensures
        stats.successes == 0 ==> stats.feed_latency(latency as nat).latency_avg() == (
            latency as nat,
            1nat,
        ),
        stats.successes > 0 ==> ({
            let (sum, count) = stats.latency_avg();
            let (next_sum, next_count) = stats.feed_latency(latency as nat).latency_avg();
            &&& next_count == count + 1
            &&& next_sum * count == sum * next_count + (latency * count - sum)
        }),
{
    if stats.successes > 0 {
        let sum = stats.latency_sum as int;
        let count = stats.successes as int;
        assert((sum + latency) * count == sum * (count + 1) + (latency * count - sum))
            by (nonlinear_arith);
    }
}

/// Losses fed between round trips change neither minimum, maximum nor mean:
/// they are those of the round trips alone. Only the attempts and the
/// losses differ, by the number of losses.
pub proof fn lemma_losses_leave_latencies(samples: Seq<Option<u32>>)
    ensures
        ({
            let with_losses = replay(samples);
            let without = replay(all_replies(round_trips(samples)));
            &&& with_losses.latency_min == without.latency_min
            &&& with_losses.latency_max == without.latency_max
            &&& with_losses.latency_avg() == without.latency_avg()
            &&& with_losses.successes == without.successes
            &&& without.losses == 0
            &&& with_losses.losses == losses_in(samples)
            &&& with_losses.attempts == without.attempts + losses_in(samples)
        }),
{
    let trips = round_trips(samples);
    lemma_replay_is_summary(samples);
    lemma_all_replies(trips);
    lemma_replay_is_summary(all_replies(trips));
    lemma_replay_valid(samples);
}

/// After any sequence of outcomes with a round trip among them, the minimum
/// is the least and the maximum the greatest latency that was fed, so the
/// minimum is no greater than the maximum.
pub proof fn lemma_extrema(samples: Seq<Option<u32>>)
    requires
        round_trips(samples).len() > 0,
    ensures
        replay(samples).latency_min <= replay(samples).latency_max,
        round_trips(samples).contains(replay(samples).latency_min as u32),
        round_trips(samples).contains(replay(samples).latency_max as u32),
        forall|i: int|
            0 <= i < round_trips(samples).len() ==> replay(samples).latency_min
                <= #[trigger] round_trips(samples)[i] <= replay(samples).latency_max,
{
    let trips = round_trips(samples);
    lemma_replay_is_summary(samples);
    lemma_least_greatest(trips);
    let i = choose|i: int| 0 <= i < trips.len() && trips[i] == least(trips);
    let j = choose|j: int| 0 <= j < trips.len() && trips[j] == greatest(trips);
    assert(trips[i] == replay(samples).latency_min as u32);
    assert(trips[j] == replay(samples).latency_max as u32);
}

} // verus!
