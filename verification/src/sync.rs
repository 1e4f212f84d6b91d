//! One-shot system clock synchronization decisions.  Stepping the clock is
//! privileged platform work that the binary performs; whether to step, by
//! how much, and how a failure maps to an exit code is decided here.

use vstd::prelude::*;

verus! {

/// Why a clock step failed.
#[derive(Debug)]
pub enum SyncError {
    /// The platform offers no way to step the clock.
    NotSupported,
    /// The caller lacks the privilege to step the clock.
    Permission(String),
    /// The platform refused the step.
    Sys(String),
}

impl SyncError {
    /// Process exit code of a failed synchronization.
    pub fn exit_code(&self) -> (code: i32)
        ensures
            code == self.spec_exit_code(),
    {
        match self {
            SyncError::Permission(_) => 12,
            SyncError::Sys(_) => 14,
            SyncError::NotSupported => 15,
        }
    }

    /// Specification of [`Self::exit_code`].
    pub open spec fn spec_exit_code(&self) -> int {
        match self {
            SyncError::Permission(_) => 12,
            SyncError::Sys(_) => 14,
            SyncError::NotSupported => 15,
        }
    }
}

/// Whether the step is withheld: without privilege, or on a dry run.
pub fn sync_withheld(is_root: bool, dry_run: bool) -> (r: bool)
    ensures
        r == (!is_root || dry_run),
{
    !is_root || dry_run
}

/// The clock adjustment in microseconds for a measured offset: the offset
/// rounded to the nearest microsecond, ties away from zero.
pub fn sync_adjustment_us(offset_ns: i64) -> (r: i64)
    ensures
        offset_ns >= 0 ==> r as int == (offset_ns + 500) / 1000,
        offset_ns < 0 ==> r as int == -((-(offset_ns as int) + 500) / 1000),
{
    if offset_ns >= 0 {
        let q: u64 = ((offset_ns as u64) + 500) / 1000;
        q as i64
    } else {
        let mag: u64 = ((-(offset_ns + 1)) as u64) + 1;
        let q: u64 = (mag + 500) / 1000;
        proof {
            assert(mag as int == -(offset_ns as int));
        }
        -(q as i64)
    }
}

} // verus!
