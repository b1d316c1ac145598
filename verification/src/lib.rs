//! Aggregation and reporting engine of a host-reachability prober.
//!
//! A stream of probe outcomes (a round trip with its latency, or a loss) is
//! folded into running statistics, once for the whole run and once for the
//! current time window, and turned into the text of the console lines and of
//! the rows of two append-only comma-separated stores.

pub mod bucket;
pub mod clock;
pub mod fraction;
pub mod history;
pub mod record;
pub mod reporter;
pub mod resolve;
pub mod store;
pub mod text;
