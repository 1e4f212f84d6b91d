//! The compact per-probe record of the short JSON output.  Serialization
//! itself is the binary's concern; the projection from a measurement is
//! decided here.

use vstd::prelude::*;

use crate::domain::ProbeResult;

verus! {

/// The fields of one probe in the short JSON output.
#[derive(Debug)]
pub struct JsonSimpleProbe {
    /// Server time, RFC 3339.
    pub utc: String,
    /// The target as the user named it.
    pub name: String,
    /// The port that was probed.
    pub port: u16,
}

/// Project a measurement onto the short JSON record.  The timestamp text
/// is rendered by the caller, which owns the calendar.
pub fn simple_probe_of(r: &ProbeResult, utc: String) -> (p: JsonSimpleProbe)
    ensures
        p.utc@ == utc@,
        p.name@ == r.target.name@,
        p.port == r.target.port,
{
    JsonSimpleProbe { utc, name: r.target.name.clone(), port: r.target.port }
}

} // verus!
