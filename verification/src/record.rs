//! The text that a probe gives rise to: the line shown to the operator, the
//! rows of the two stores, and the closing statistics.
//!
//! Rates and means are written as fixed-point numerals, rounded to the
//! nearest last digit, halves upwards.

use crate::bucket::{PingBucket, Stats};
use crate::fraction::{round_div, Fraction};
use crate::text::{decimal, fixed_point, push_decimal, push_fixed_point};
use vstd::prelude::*;

verus! {

/// Digits behind the decimal point of a loss rate.
pub const RATE_PLACES: u8 = 2;

/// Digits behind the decimal point of a mean latency.
pub const MEAN_PLACES: u8 = 1;

/// A loss rate in per cent, given as numerator and denominator, with two
/// digits behind the decimal point.
pub open spec fn rate_text(rate: (nat, nat)) -> Seq<char> {
    fixed_point(round_div(rate.0 * 100, rate.1), RATE_PLACES as nat)
}

/// A mean latency, given as numerator and denominator, with one digit behind
/// the decimal point.
pub open spec fn mean_text(mean: (nat, nat)) -> Seq<char> {
    fixed_point(round_div(mean.0 * 10, mean.1), MEAN_PLACES as nat)
}

/// `"true"` or `"false"`.
pub open spec fn flag_text(flag: bool) -> Seq<char> {
    if flag {
        "true"@
    } else {
        "false"@
    }
}

/// The console line of a round trip.
pub open spec fn reply_line(ordinal: nat, target: Seq<char>, latency: nat) -> Seq<char> {
    decimal(ordinal) + ". Reply from '"@ + target + "' after "@ + decimal(latency) + "ms"@
}

/// The console line of a loss.
pub open spec fn error_line(ordinal: nat, reason: Seq<char>) -> Seq<char> {
    decimal(ordinal) + ". Error: "@ + reason
}

/// One row of the raw store.
pub open spec fn raw_row(
    timestamp: Seq<char>,
    target: Seq<char>,
    latency: nat,
    is_packet_loss: bool,
) -> Seq<char> {
    timestamp + ", "@ + target + ", "@ + decimal(latency) + ", "@ + flag_text(is_packet_loss)
        + "\n"@
}

/// One row of the summary store: the statistics of a window that closes.
pub open spec fn summary_row(timestamp: Seq<char>, target: Seq<char>, window: Stats) -> Seq<
    char,
> {
    timestamp + ", "@ + target + ", "@ + decimal(window.attempts) + ", "@ + decimal(
        window.losses,
    ) + ", "@ + rate_text(window.lost_percentage()) + ", "@ + decimal(window.latency_min)
        + ", "@ + decimal(window.latency_max) + ", "@ + mean_text(window.latency_avg()) + "\n"@
}

/// The closing statistics of a run, five lines of which the first is empty.
pub open spec fn total_stats(target: Seq<char>, lifetime: Stats) -> Seq<char> {
    "\nPing statistics for "@ + target + "\n    Packets: Sent = "@ + decimal(lifetime.attempts)
        + ", Received = "@ + decimal(lifetime.successes) + ", Lost = "@ + decimal(
        lifetime.losses,
    ) + " ("@ + rate_text(lifetime.lost_percentage())
        + "% loss),\nApproximate round trip times in milli-seconds:\n    Minimum = "@ + decimal(
        lifetime.latency_min,
    ) + "ms, Maximum = "@ + decimal(lifetime.latency_max) + "ms, Average = "@ + mean_text(
        lifetime.latency_avg(),
    ) + "ms\n"@
}

/// Appends a loss rate in per cent.
pub fn push_rate(out: &mut String, rate: &Fraction)
    ensures
        final(out)@ == old(out)@ + rate_text(rate@),
{
    push_fixed_point(out, rate.scaled(100), RATE_PLACES);
}

/// Appends a mean latency.
pub fn push_mean(out: &mut String, mean: &Fraction)
    ensures
        final(out)@ == old(out)@ + mean_text(mean@),
{
    push_fixed_point(out, mean.scaled(10), MEAN_PLACES);
}

/// The console line of the `ordinal`-th probe, answered by `target` after
/// `latency` milliseconds.
pub fn format_reply_line(ordinal: u32, target: &str, latency: u32) -> (line: String)
    ensures
        line@ == reply_line(ordinal as nat, target@, latency as nat),
{
    let mut line = String::new();
    push_decimal(&mut line, ordinal as u128);
    line.append(". Reply from '");
    line.append(target);
    line.append("' after ");
    push_decimal(&mut line, latency as u128);
    line.append("ms");
    assert(line@ =~= reply_line(ordinal as nat, target@, latency as nat));
    line
}

/// The console line of the `ordinal`-th probe, lost for `reason`.
pub fn format_error_line(ordinal: u32, reason: &str) -> (line: String)
    ensures
        line@ == error_line(ordinal as nat, reason@),
{
    let mut line = String::new();
    push_decimal(&mut line, ordinal as u128);
    line.append(". Error: ");
    line.append(reason);
    assert(line@ =~= error_line(ordinal as nat, reason@));
    line
}

/// The raw-store row of one probe, written at `timestamp`.
pub fn format_raw_row(timestamp: &str, target: &str, latency: u32, is_packet_loss: bool) -> (row:
    String)
    ensures
        row@ == raw_row(timestamp@, target@, latency as nat, is_packet_loss),
{
    let mut row = String::new();
    row.append(timestamp);
    row.append(", ");
    row.append(target);
    row.append(", ");
    push_decimal(&mut row, latency as u128);
    row.append(", ");
    if is_packet_loss {
        row.append("true");
    } else {
        row.append("false");
    }
    row.append("\n");
    assert(row@ =~= raw_row(timestamp@, target@, latency as nat, is_packet_loss));
    row
}

/// The summary-store row of a window that closes at `timestamp`.
pub fn format_summary_row(timestamp: &str, target: &str, window: &PingBucket) -> (row: String)
    ensures
        row@ == summary_row(timestamp@, target@, window@),
{
    let mut row = String::new();
    row.append(timestamp);
    row.append(", ");
    row.append(target);
    row.append(", ");
    push_decimal(&mut row, window.ping_attempts() as u128);
    row.append(", ");
    push_decimal(&mut row, window.pings_lost() as u128);
    row.append(", ");
    push_rate(&mut row, &window.lost_percentage());
    row.append(", ");
    push_decimal(&mut row, window.latency_min() as u128);
    row.append(", ");
    push_decimal(&mut row, window.latency_max() as u128);
    row.append(", ");
    push_mean(&mut row, &window.latency_avg());
    row.append("\n");
    assert(row@ =~= summary_row(timestamp@, target@, window@));
    row
}

/// The closing statistics of a run against `target`.
pub fn format_total_stats(target: &str, lifetime: &PingBucket) -> (text: String)
    ensures
        text@ == total_stats(target@, lifetime@),
{
    let mut text = String::new();
    text.append("\nPing statistics for ");
    text.append(target);
    text.append("\n    Packets: Sent = ");
    push_decimal(&mut text, lifetime.ping_attempts() as u128);
    text.append(", Received = ");
    push_decimal(&mut text, lifetime.ping_count() as u128);
    text.append(", Lost = ");
    push_decimal(&mut text, lifetime.pings_lost() as u128);
    text.append(" (");
    push_rate(&mut text, &lifetime.lost_percentage());
    text.append("% loss),\nApproximate round trip times in milli-seconds:\n    Minimum = ");
    push_decimal(&mut text, lifetime.latency_min() as u128);
    text.append("ms, Maximum = ");
    push_decimal(&mut text, lifetime.latency_max() as u128);
    text.append("ms, Average = ");
    push_mean(&mut text, &lifetime.latency_avg());
    text.append("ms\n");
    assert(text@ =~= total_stats(target@, lifetime@));
    text
}

} // verus!
