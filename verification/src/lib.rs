//! Bookkeeping for an exporter that republishes the per-user traffic counters
//! of an upstream stats service as counters of a pull-based metrics endpoint.
//!
//! The library holds the rules and none of the plumbing. It decodes the flat
//! stat names of the upstream service into series keys (`name`), keeps the
//! exported value of every series and reconciles it with each absolute value
//! that is observed (`series`), and decides, step by step, what a sync cycle
//! does between a scrape request and the answer to it (`cycle`). Connections,
//! queries and the metrics endpoint belong to whoever drives the exporter.
//!
//! Exported values are kept as the 64-bit integers that the upstream service
//! reports. Each series follows the latest observation exactly, also when the
//! upstream counter has fallen, as it does after a restart of the upstream
//! service; the difference that is reported for such an observation is
//! negative, and it is for the driver to say what a counter that can only rise
//! makes of it.

pub mod cycle;
pub mod key;
pub mod name;
pub mod pool;
pub mod series;
pub mod stat;
