//! The reporter: takes each probe's outcome, keeps the statistics of the
//! whole run and of the current window, and hands out the text to show and
//! to store. It touches no file and prints nothing: its caller does.

use crate::bucket::{PingBucket, Stats};
use crate::clock::now_iso;
use crate::record::{
    error_line, format_error_line, format_raw_row, format_reply_line, format_summary_row,
    format_total_stats, raw_row, reply_line, summary_row, total_stats,
};
use std::time::Instant;
use vstd::prelude::*;

verus! {

/// Seconds after which the current window closes.
pub const WINDOW_SECS: u64 = 600;

/// The result of one probe.
#[derive(Clone, Debug)]
pub enum ProbeOutcome {
    /// A reply came back after `latency_ms` milliseconds.
    Success { latency_ms: u32 },
    /// No reply came back; `reason` describes the failure.
    Loss { reason: String },
}

impl ProbeOutcome {
    /// The outcome as a bucket takes it: `Some` latency or `None`.
    pub open spec fn sample(self) -> Option<u32> {
        match self {
            ProbeOutcome::Success { latency_ms } => Some(latency_ms),
            ProbeOutcome::Loss { reason } => None,
        }
    }

    /// The latency written to the raw store: zero for a loss.
    pub open spec fn stored_latency(self) -> nat {
        match self {
            ProbeOutcome::Success { latency_ms } => latency_ms as nat,
            ProbeOutcome::Loss { reason } => 0,
        }
    }

    /// The console line of this outcome as the `ordinal`-th probe of
    /// `target`.
    pub open spec fn console_line(self, ordinal: nat, target: Seq<char>) -> Seq<char> {
        match self {
            ProbeOutcome::Success { latency_ms } => reply_line(ordinal, target, latency_ms as nat),
            ProbeOutcome::Loss { reason } => error_line(ordinal, reason@),
        }
    }
}

/// What one probe gives its caller to emit.
#[derive(Clone, Debug)]
pub struct Report {
    /// The line for the operator, without a line end.
    pub console_line: String,
    /// The row for the raw store, with its line end.
    pub raw_row: String,
}

/// A reporter's state as mathematical values.
pub struct ReporterState {
    /// Probes reported so far.
    pub ping_counter: nat,
    /// The address that is probed, as text.
    pub target: Seq<char>,
    /// The folder that holds the two stores.
    pub output_folder: Seq<char>,
    /// Statistics of the current window.
    pub bucket: Stats,
    /// Statistics of the whole run.
    pub total: Stats,
    /// When the current window began.
    pub bucket_start: Instant,
}

impl ReporterState {
    /// What holds of every reporter: both buckets are valid, the run's
    /// bucket has seen every probe, and the window's no more than that.
    pub open spec fn valid(self) -> bool {
        &&& self.total.valid()
        &&& self.bucket.valid()
        &&& self.total.attempts == self.ping_counter
        &&& self.bucket.attempts <= self.total.attempts
    }

    /// The state after one more outcome: it counts, and goes into both
    /// buckets.
    pub open spec fn after(self, sample: Option<u32>) -> ReporterState {
        ReporterState {
            ping_counter: self.ping_counter + 1,
            bucket: self.bucket.feed(sample),
            total: self.total.feed(sample),
            ..self
        }
    }

    /// The state after the window closed at `now`: an empty window that
    /// begins at `now`, and nothing else changed.
    pub open spec fn window_closed(self, now: Instant) -> ReporterState {
        ReporterState { bucket: Stats::empty(), bucket_start: now, ..self }
    }
}

/// Reports on the probes of one target.
pub struct Reporter {
    ping_counter: u32,
    output_folder: String,
    target: String,
    bucket: PingBucket,
    total: PingBucket,
    bucket_start: Instant,
}

impl View for Reporter {
    type V = ReporterState;

    closed spec fn view(&self) -> ReporterState {
        ReporterState {
            ping_counter: self.ping_counter as nat,
            target: self.target@,
            output_folder: self.output_folder@,
            bucket: self.bucket@,
            total: self.total@,
            bucket_start: self.bucket_start,
        }
    }
}

impl Reporter {
    /// The reporter's state is one that a run can reach.
    pub open spec fn wf(&self) -> bool {
        self@.valid()
    }

    /// A reporter for `ip_target` that keeps its stores in the current
    /// folder. Its window begins now.
    pub fn new(ip_target: &str) -> (reporter: Reporter)
        ensures
            reporter.wf(),
            reporter@.ping_counter == 0,
            reporter@.target == ip_target@,
            reporter@.output_folder == "."@,
            reporter@.bucket == Stats::empty(),
            reporter@.total == Stats::empty(),
    {
        Reporter::with_output_folder(ip_target, ".")
    }

    /// A reporter for `ip_target` that keeps its stores in `output_folder`.
    /// Its window begins now.
    pub fn with_output_folder(ip_target: &str, output_folder: &str) -> (reporter: Reporter)
        ensures
            reporter.wf(),
            reporter@.ping_counter == 0,
            reporter@.target == ip_target@,
            reporter@.output_folder == output_folder@,
            reporter@.bucket == Stats::empty(),
            reporter@.total == Stats::empty(),
    {
        Reporter {
            ping_counter: 0,
            target: ip_target.to_owned(),
            output_folder: output_folder.to_owned(),
            bucket: PingBucket::new(),
            total: PingBucket::new(),
            bucket_start: Instant::now(),
        }
    }

    /// Takes a reply that came back after `latency` milliseconds. The row is
    /// stamped with the wall clock's time.
    pub fn report_value(&mut self, latency: u32) -> (report: Report)
        requires
            old(self).wf(),
            old(self)@.ping_counter < u32::MAX,
        ensures
            final(self).wf(),
            final(self)@ == old(self)@.after(Some(latency)),
            report.console_line@ == reply_line(
                old(self)@.ping_counter + 1,
                old(self)@.target,
                latency as nat,
            ),
            exists|timestamp: Seq<char>| #[trigger]
                raw_row(timestamp, old(self)@.target, latency as nat, false) == report.raw_row@,
    {
        self.ping_counter = self.ping_counter + 1;
        self.total.feed_latency(latency);
        self.bucket.feed_latency(latency);
        let console_line = format_reply_line(self.ping_counter, self.target.as_str(), latency);
        let timestamp = now_iso();
        let raw_row = format_raw_row(timestamp.as_str(), self.target.as_str(), latency, false);
        Report { console_line, raw_row }
    }

    /// Takes a probe that got no reply, for the reason that `error`
    /// describes. The row is stamped with the wall clock's time.
    pub fn report_packet_loss(&mut self, error: &str) -> (report: Report)
        requires
            old(self).wf(),
            old(self)@.ping_counter < u32::MAX,
        ensures
            final(self).wf(),
            final(self)@ == old(self)@.after(None),
            report.console_line@ == error_line(old(self)@.ping_counter + 1, error@),
            exists|timestamp: Seq<char>| #[trigger]
                raw_row(timestamp, old(self)@.target, 0, true) == report.raw_row@,
    {
        self.ping_counter = self.ping_counter + 1;
        self.total.feed_lost_ping();
        self.bucket.feed_lost_ping();
        let console_line = format_error_line(self.ping_counter, error);
        let timestamp = now_iso();
        let raw_row = format_raw_row(timestamp.as_str(), self.target.as_str(), 0, true);
        Report { console_line, raw_row }
    }

    /// Takes the outcome of one probe, whichever it is.
    pub fn report_outcome(&mut self, outcome: &ProbeOutcome) -> (report: Report)
        requires
            old(self).wf(),
            old(self)@.ping_counter < u32::MAX,
        ensures
            final(self).wf(),
            final(self)@ == old(self)@.after(outcome.sample()),
            report.console_line@ == outcome.console_line(
                old(self)@.ping_counter + 1,
                old(self)@.target,
            ),
            exists|timestamp: Seq<char>| #[trigger]
                raw_row(
                    timestamp,
                    old(self)@.target,
                    outcome.stored_latency(),
                    outcome is Loss,
                ) == report.raw_row@,
    {
        let report = match outcome {
            ProbeOutcome::Success { latency_ms } => self.report_value(*latency_ms),
            ProbeOutcome::Loss { reason } => self.report_packet_loss(reason.as_str()),
        };
        proof {
            let target = old(self)@.target;
            let latency = outcome.stored_latency();
            let lost = outcome is Loss;
            let timestamp = choose|timestamp: Seq<char>| #[trigger]
                raw_row(timestamp, target, latency, lost) == report.raw_row@;
            assert(raw_row(timestamp, target, latency, lost) == report.raw_row@);
        }
        report
    }

    /// Whether a window that has been open for `elapsed_secs` seconds is to
    /// be closed.
    pub fn window_elapsed(elapsed_secs: u64) -> (due: bool)
        ensures
            due == (elapsed_secs >= WINDOW_SECS),
    {
        elapsed_secs >= WINDOW_SECS
    }

    /// Closes the current window at `now`: gives its summary row, stamped
    /// with `timestamp`, and begins an empty window.
    pub fn close_window(&mut self, timestamp: &str, now: Instant) -> (row: String)
        requires
            old(self).wf(),
        ensures
            final(self).wf(),
            final(self)@ == old(self)@.window_closed(now),
            row@ == summary_row(timestamp@, old(self)@.target, old(self)@.bucket),
    {
        let row = format_summary_row(timestamp, self.target.as_str(), &self.bucket);
        self.bucket = PingBucket::new();
        self.bucket_start = now;
        row
    }

    /// Closes the current window if the monotonic clock says that it has
    /// been open for `WINDOW_SECS` seconds or more, and then gives its
    /// summary row, stamped with the wall clock's time. Otherwise nothing
    /// changes.
    pub fn check_update_summary(&mut self) -> (row: Option<String>)
        requires
            old(self).wf(),
        ensures
            final(self).wf(),
            row is None ==> final(self)@ == old(self)@,
            row is Some ==> exists|timestamp: Seq<char>, now: Instant|
                {
                    &&& #[trigger] summary_row(timestamp, old(self)@.target, old(self)@.bucket)
                        == row->0@
                    &&& final(self)@ == #[trigger] old(self)@.window_closed(now)
                },
    {
        let since_last = self.bucket_start.elapsed();
        self.update_summary_after(since_last.as_secs())
    }

    /// Closes the current window if it has been open for `elapsed_secs`
    /// seconds and that is `WINDOW_SECS` or more: it then gives the window's
    /// summary row, stamped with the wall clock's time, and begins an empty
    /// window at the monotonic clock's reading. A younger window stays as it
    /// is, and no clock is read.
    pub fn update_summary_after(&mut self, elapsed_secs: u64) -> (row: Option<String>)
        requires
            old(self).wf(),
        ensures
            final(self).wf(),
            row is Some <==> elapsed_secs >= WINDOW_SECS,
            row is None ==> final(self)@ == old(self)@,
            row is Some ==> exists|timestamp: Seq<char>, now: Instant|
                {
                    &&& #[trigger] summary_row(timestamp, old(self)@.target, old(self)@.bucket)
                        == row->0@
                    &&& final(self)@ == #[trigger] old(self)@.window_closed(now)
                },
    {
        if Reporter::window_elapsed(elapsed_secs) {
            let timestamp = now_iso();
            let now = Instant::now();
            let row = self.close_window(timestamp.as_str(), now);
            Some(row)
        } else {
            None
        }
    }

    /// The statistics of the whole run as the text that is shown when the
    /// run ends.
    pub fn print_total_stats(&self) -> (text: String)
        ensures
            text@ == total_stats(self@.target, self@.total),
    {
        format_total_stats(self.target.as_str(), &self.total)
    }

    /// Probes reported so far.
    pub fn ping_counter(&self) -> (n: u32)
        ensures
            n == self@.ping_counter,
    {
        self.ping_counter
    }

    /// The address that is probed, as text.
    pub fn target(&self) -> (text: &str)
        ensures
            text@ == self@.target,
    {
        self.target.as_str()
    }

    /// The folder that holds the two stores.
    pub fn output_folder(&self) -> (text: &str)
        ensures
            text@ == self@.output_folder,
    {
        self.output_folder.as_str()
    }

    /// Statistics of the current window.
    pub fn bucket(&self) -> (bucket: &PingBucket)
        ensures
            bucket@ == self@.bucket,
            self.wf() ==> bucket.wf(),
    {
        &self.bucket
    }

    /// Statistics of the whole run.
    pub fn total(&self) -> (total: &PingBucket)
        ensures
            total@ == self@.total,
            self.wf() ==> total.wf(),
    {
        &self.total
    }
}

/// After a window closed, the new window has seen no probe, and the next
/// outcome gives it the statistics of that outcome alone, whatever went
/// before. The statistics of the whole run go on as if no window had
/// closed.
pub proof fn lemma_window_reset(before: ReporterState, now: Instant, sample: Option<u32>)
    ensures
        before.window_closed(now).bucket.attempts == 0,
        before.window_closed(now).after(sample).bucket == Stats::empty().feed(sample),
        before.window_closed(now).after(sample).total == before.after(sample).total,
        before.window_closed(now).after(sample).ping_counter == before.after(sample).ping_counter,
{
}

/// Every step keeps a reporter's state valid.
pub proof fn lemma_steps_keep_valid(before: ReporterState, now: Instant, sample: Option<u32>)
    requires
        before.valid(),
    ensures
        before.after(sample).valid(),
        before.window_closed(now).valid(),
{
    match sample {
        Some(latency) => {
            crate::bucket::lemma_feed_latency_valid(before.total, latency);
            crate::bucket::lemma_feed_latency_valid(before.bucket, latency);
        },
        None => {},
    }
}

} // verus!
