//! Core logic of an NTP / PTP clock-inspection tool: target parsing,
//! resolver address policy, probe normalization, fan-out aggregation,
//! sampling control, statistics and threshold evaluation.
//!
//! All time quantities are carried as integer nanoseconds; the surrounding
//! binary converts to and from the units its collaborators use.

pub mod compare;
pub mod config;
pub mod digits;
pub mod domain;
pub mod error;
pub mod json;
pub mod nts;
pub mod output;
pub mod plugin;
pub mod ptp;
pub mod ptp_sim;
pub mod query;
pub mod resolver;
pub mod sampling;
pub mod stats;
pub mod sync;

pub use compare::{collect_batch, validate_compare_targets, SeriesMap};
pub use domain::{build_probe_result, ProbeResult, Target};
pub use error::RkikError;
pub use output::OutputFormat;
pub use plugin::{evaluate, validate_thresholds, Verdict};
pub use ptp::{
    ClockIdentity, ClockQuality, PacketStats, PortIdentity, PtpDiagnostics, PtpProbeResult,
    PtpTarget, PtpQueryOptions, TimeSource,
};
pub use query::{parse_target, plan_probe, ParsedTarget, ProbePlan};
pub use sampling::{validate_sampling, SamplingConfig, SamplingRun};
pub use stats::{compute_ptp_stats, compute_stats, PtpStats, Stats};
