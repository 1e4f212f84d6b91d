//! Protocol-agnostic probe data: the resolved target and the normalized
//! measurement.  Clock offset and round-trip delay are integer nanoseconds;
//! the timestamp is Unix seconds.

use vstd::prelude::*;

verus! {

/// Target host resolved to an address, fixed at probe time.
#[derive(Debug)]
pub struct Target {
    /// The host exactly as the user typed it.
    pub name: String,
    /// Textual form of the resolved address.
    pub ip: String,
    /// The port the probe used.
    pub port: u16,
}

impl Clone for Target {
    fn clone(&self) -> (r: Self)
        ensures
            r.name@ == self.name@,
            r.ip@ == self.ip@,
            r.port == self.port,
    {
        Target { name: self.name.clone(), ip: self.ip.clone(), port: self.port }
    }
}

/// Result of probing one time server: one measurement, created once per
/// successful attempt and immutable afterwards.
#[derive(Debug)]
pub struct ProbeResult {
    /// The target the measurement came from.
    pub target: Target,
    /// Clock offset in nanoseconds; positive means the local clock is ahead.
    pub offset_ns: i64,
    /// Round-trip delay in nanoseconds.
    pub rtt_ns: i64,
    /// Stratum reported by the server.
    pub stratum: u8,
    /// Reference identifier reported by the server.
    pub ref_id: String,
    /// Server time as Unix seconds.
    pub timestamp: i64,
    /// Whether the exchange was cryptographically authenticated.
    pub authenticated: bool,
}

impl Clone for ProbeResult {
    fn clone(&self) -> (r: Self)
        ensures
            same_measurement(r, *self),
    {
        ProbeResult {
            target: self.target.clone(),
            offset_ns: self.offset_ns,
            rtt_ns: self.rtt_ns,
            stratum: self.stratum,
            ref_id: self.ref_id.clone(),
            timestamp: self.timestamp,
            authenticated: self.authenticated,
        }
    }
}

/// Two measurements hold the same values.
pub open spec fn same_measurement(a: ProbeResult, b: ProbeResult) -> bool {
    &&& a.target.name@ == b.target.name@
    &&& a.target.ip@ == b.target.ip@
    &&& a.target.port == b.target.port
    &&& a.offset_ns == b.offset_ns
    &&& a.rtt_ns == b.rtt_ns
    &&& a.stratum == b.stratum
    &&& a.ref_id@ == b.ref_id@
    &&& a.timestamp == b.timestamp
    &&& a.authenticated == b.authenticated
}

/// Stamp one successful probe exchange into a measurement.  The target
/// carries the original target string and the address and port that were
/// actually probed; every numeric field is taken over unchanged.  No partial
/// measurement exists: this runs only after the exchange succeeded.
pub fn build_probe_result(
    name: &str,
    ip: String,
    port: u16,
    offset_ns: i64,
    rtt_ns: i64,
    stratum: u8,
    ref_id: String,
    timestamp: i64,
    authenticated: bool,
) -> (r: ProbeResult)
    ensures
        r.target.name@ == name@,
        r.target.ip@ == ip@,
        r.target.port == port,
        r.offset_ns == offset_ns,
        r.rtt_ns == rtt_ns,
        r.stratum == stratum,
        r.ref_id@ == ref_id@,
        r.timestamp == timestamp,
        r.authenticated == authenticated,
{
    ProbeResult {
        target: Target { name: name.to_owned(), ip, port },
        offset_ns,
        rtt_ns,
        stratum,
        ref_id,
        timestamp,
        authenticated,
    }
}

} // verus!
