//! Control of a sampling run: the mutual-exclusion rules checked before any
//! probing, the iteration state machine (probe, record, sleep or stop), and
//! the decisions taken on failure and at the end of the run.  The
//! surrounding binary owns the clock and the network; it asks this module
//! what to do next and performs the waiting itself.

use vstd::prelude::*;

use crate::domain::ProbeResult;
use crate::error::RkikError;

verus! {

/// The inter-sample interval used when none is given, in milliseconds.
pub const DEFAULT_INTERVAL_MS: u64 = 1000;

/// How a sampling run is driven: a fixed number of iterations, or without
/// bound until cancelled.
#[derive(Debug)]
pub struct SamplingConfig {
    /// Run until cancelled instead of a fixed number of times.
    pub infinite: bool,
    /// Number of iterations when not infinite.
    pub count: u32,
    /// Milliseconds to sleep between iterations.
    pub interval_ms: u64,
}

impl Clone for SamplingConfig {
    fn clone(&self) -> (r: Self)
        ensures
            r == *self,
    {
        SamplingConfig { infinite: self.infinite, count: self.count, interval_ms: self.interval_ms }
    }
}

/// The usage error a sampling configuration produces, if any: `infinite`
/// excludes an explicit count, and a non-default interval requires repeated
/// sampling (either `infinite` or a count above one).  Checked in that
/// order, before any probing.
pub open spec fn spec_sampling_issue(cfg: SamplingConfig) -> Option<Seq<char>> {
    if cfg.infinite && cfg.count != 1 {
        Some("--infinite cannot be used with --count"@)
    } else if cfg.interval_ms != DEFAULT_INTERVAL_MS && !cfg.infinite && cfg.count == 1 {
        Some("--interval requires --infinite or --count"@)
    } else {
        None
    }
}

/// Validate a sampling configuration before any probing.
pub fn validate_sampling(cfg: &SamplingConfig) -> (r: Result<(), RkikError>)
    ensures
        r is Ok <==> spec_sampling_issue(*cfg) is None,
        r matches Err(e) ==> e matches RkikError::Usage(m) && Some(m@) == spec_sampling_issue(
            *cfg,
        ),
{
    if cfg.infinite && cfg.count != 1 {
        return Err(RkikError::Usage("--infinite cannot be used with --count".to_owned()));
    }
    if cfg.interval_ms != DEFAULT_INTERVAL_MS && !cfg.infinite && cfg.count == 1 {
        return Err(RkikError::Usage("--interval requires --infinite or --count".to_owned()));
    }
    Ok(())
}

/// Whether a run under this configuration goes on after `completed`
/// iterations: a bounded run continues while iterations remain, an
/// infinite one until the cancellation signal has fired.
pub fn sampling_continues(cfg: &SamplingConfig, completed: u64, cancelled: bool) -> (r: bool)
    ensures
        r == (if cfg.infinite {
            !cancelled
        } else {
            completed < cfg.count
        }),
{
    if cfg.infinite {
        !cancelled
    } else {
        completed < cfg.count as u64
    }
}

/// Phase of a sampling run.
#[derive(Debug, PartialEq, Eq, Structural)]
pub enum RunPhase {
    /// Created, no iteration started yet.
    Idle,
    /// An iteration's probe attempt is in flight.
    Probing,
    /// Between iterations; the next probe follows the sleep.
    Sleeping,
    /// The run is over.
    Done,
}

/// What the caller must do when a probe attempt fails.
#[derive(Debug)]
pub enum FailureAction {
    /// Monitoring mode: count the iteration as a failure and go on; the
    /// run's verdict absorbs the failure at the end.
    RecordAndContinue,
    /// Interactive mode: print the error and exit with the given code.
    AbortWith(i32),
}

/// State of one sampling run over a single target: how many iterations have
/// completed and the series of successful measurements, in order.  The
/// series is append-only; a failed iteration contributes nothing to it.
#[derive(Debug)]
pub struct SamplingRun {
    /// The configuration the run was started with.
    pub config: SamplingConfig,
    /// Where the run stands.
    pub phase: RunPhase,
    /// Iterations completed so far.
    pub completed: u64,
    /// Successful measurements, in the order they were recorded.
    pub series: Vec<ProbeResult>,
}

impl SamplingRun {
    /// Start a run with a valid configuration.
    pub fn new(config: SamplingConfig) -> (r: Self)
        requires
            spec_sampling_issue(config) is None,
        ensures
            r.config == config,
            r.phase == RunPhase::Idle,
            r.completed == 0,
            r.series@.len() == 0,
    {
        SamplingRun { config, phase: RunPhase::Idle, completed: 0, series: Vec::new() }
    }

    /// Enter the next iteration's probe attempt.
    pub fn begin_iteration(&mut self)
        requires
            old(self).phase == RunPhase::Idle || old(self).phase == RunPhase::Sleeping,
        ensures
            final(self).phase == RunPhase::Probing,
            final(self).config == old(self).config,
            final(self).completed == old(self).completed,
            final(self).series@ == old(self).series@,
    {
        self.phase = RunPhase::Probing;
    }

    /// Record one successful measurement: it is appended to the series and
    /// the iteration counts as completed.  Nothing already recorded moves.
    pub fn record_success(&mut self, r: ProbeResult)
        requires
            old(self).phase == RunPhase::Probing,
        ensures
            final(self).series@ == old(self).series@.push(r),
            final(self).completed as int == if old(self).completed < u64::MAX {
                old(self).completed + 1
            } else {
                old(self).completed as int
            },
            final(self).phase == RunPhase::Probing,
            final(self).config == old(self).config,
    {
        self.series.push(r);
        if self.completed < u64::MAX {
            self.completed = self.completed + 1;
        }
    }

    /// Record a failed iteration: the series is untouched, but the
    /// iteration still counts as completed.
    pub fn record_failure(&mut self)
        requires
            old(self).phase == RunPhase::Probing,
        ensures
            final(self).series@ == old(self).series@,
            final(self).completed as int == if old(self).completed < u64::MAX {
                old(self).completed + 1
            } else {
                old(self).completed as int
            },
            final(self).phase == RunPhase::Probing,
            final(self).config == old(self).config,
    {
        if self.completed < u64::MAX {
            self.completed = self.completed + 1;
        }
    }

    /// Whether the run goes on after the iteration that just completed: a
    /// bounded run continues while iterations remain; an infinite run
    /// continues until the cancellation signal has fired.  Cancellation
    /// never discards the iteration already recorded.
    pub open spec fn spec_continues(&self, cancelled: bool) -> bool {
        if self.config.infinite {
            !cancelled
        } else {
            self.completed < self.config.count
        }
    }

    /// Close the current iteration: the run moves to `Sleeping` when it
    /// continues — the caller then sleeps for the configured interval —
    /// and to `Done` when it is over.
    pub fn end_iteration(&mut self, cancelled: bool) -> (cont: bool)
        requires
            old(self).phase == RunPhase::Probing,
        ensures
            cont == old(self).spec_continues(cancelled),
            final(self).phase == if cont {
                RunPhase::Sleeping
            } else {
                RunPhase::Done
            },
            final(self).config == old(self).config,
            final(self).completed == old(self).completed,
            final(self).series@ == old(self).series@,
    {
        let cont = if self.config.infinite {
            !cancelled
        } else {
            self.completed < self.config.count as u64
        };
        self.phase = if cont {
            RunPhase::Sleeping
        } else {
            RunPhase::Done
        };
        cont
    }

    /// What to do when a probe attempt fails: monitoring mode swallows the
    /// failure — the iteration is recorded and the run goes on, so a
    /// well-formed status line is always emitted at the end — while
    /// interactive mode aborts with the exit code of the error kind.
    pub fn on_failure(&self, plugin_mode: bool, e: &RkikError) -> (a: FailureAction)
        ensures
            plugin_mode ==> a is RecordAndContinue,
            !plugin_mode ==> (a matches FailureAction::AbortWith(code) && code
                == e.spec_exit_code()),
    {
        if plugin_mode {
            FailureAction::RecordAndContinue
        } else {
            FailureAction::AbortWith(e.exit_code())
        }
    }

    /// Whether the finished run prints a statistics summary: only an
    /// interactive run that collected more than one sample does.
    pub fn should_print_stats(&self, plugin_mode: bool) -> (r: bool)
        ensures
            r == (self.series@.len() > 1 && !plugin_mode),
    {
        self.series.len() > 1 && !plugin_mode
    }
}

} // verus!
