//! PTP (precision time protocol) domain types: clock identities, clock
//! quality, the probe result, and its text renderings.  Offsets and delays
//! are integer nanoseconds; timestamps are Unix seconds.

use vstd::prelude::*;

use crate::digits::{
    append_pad3, byte_to_hex, spec_hex_byte, spec_idec, spec_pad3, spec_udec, i64_to_string,
    u64_to_string,
};

verus! {

/// Clock identity (EUI-64): eight bytes identifying a PTP clock.
#[derive(Debug, PartialEq, Eq)]
pub struct ClockIdentity(pub [u8; 8]);

impl Clone for ClockIdentity {
    fn clone(&self) -> (r: Self)
        ensures
            r == *self,
    {
        ClockIdentity(self.0)
    }
}

impl Copy for ClockIdentity {

}

/// The hex rendering of a byte string, pairs joined by `:`
/// (for example `00:1B:21:AB:CD:EF:00:01`).
pub open spec fn spec_hex_colon(bytes: Seq<u8>) -> Seq<char>
    decreases bytes.len(),
{
    if bytes.len() == 0 {
        Seq::empty()
    } else if bytes.len() == 1 {
        spec_hex_byte(bytes[0])
    } else {
        spec_hex_colon(bytes.drop_last()) + seq![':'] + spec_hex_byte(bytes.last())
    }
}

impl ClockIdentity {
    /// Wrap eight identity bytes.
    pub fn new(bytes: [u8; 8]) -> (r: Self)
        ensures
            r.0 == bytes,
    {
        ClockIdentity(bytes)
    }

    /// Format as upper-case hex pairs joined by `:`.
    pub fn to_hex_string(&self) -> (r: String)
        ensures
            r@ == spec_hex_colon(self.0@),
    {
        let mut out = String::new();
        let mut i: usize = 0;
        while i < 8
            invariant
                0 <= i <= 8,
                self.0@.len() == 8,
                out@ == spec_hex_colon(self.0@.take(i as int)),
            decreases 8 - i,
        {
            proof {
                assert(self.0@.take(i + 1).drop_last() =~= self.0@.take(i as int));
                assert(self.0@.take(i + 1).last() == self.0@[i as int]);
            }
            if i > 0 {
                out.append(":");
                proof {
                    reveal_strlit(":");
                    assert(":"@ =~= seq![':']);
                }
            }
            let pair = byte_to_hex(self.0[i]);
            out.append(pair.as_str());
            proof {
                assert(out@ =~= spec_hex_colon(self.0@.take(i + 1)));
            }
            i = i + 1;
        }
        proof {
            assert(self.0@.take(8) =~= self.0@);
        }
        out
    }
}

/// Port identity: a clock identity and a port number.
#[derive(Debug, PartialEq, Eq)]
pub struct PortIdentity {
    /// The clock the port belongs to.
    pub clock_identity: ClockIdentity,
    /// Port number on that clock.
    pub port_number: u16,
}

impl Clone for PortIdentity {
    fn clone(&self) -> (r: Self)
        ensures
            r == *self,
    {
        PortIdentity { clock_identity: self.clock_identity, port_number: self.port_number }
    }
}

impl Copy for PortIdentity {

}

impl PortIdentity {
    /// Format as the clock identity followed by `:` and the port number.
    pub fn to_display_string(&self) -> (r: String)
        ensures
            r@ == spec_hex_colon(self.clock_identity.0@) + seq![':'] + spec_udec(
                self.port_number as nat,
            ),
    {
        let mut out = self.clock_identity.to_hex_string();
        out.append(":");
        proof {
            reveal_strlit(":");
            assert(":"@ =~= seq![':']);
        }
        let digits = u64_to_string(self.port_number as u64);
        out.append(digits.as_str());
        proof {
            assert(out@ =~= spec_hex_colon(self.clock_identity.0@) + seq![':'] + spec_udec(
                self.port_number as nat,
            ));
        }
        out
    }
}

/// Origin of the time used by the grandmaster clock.
#[derive(Debug, PartialEq, Eq, Structural)]
pub enum TimeSource {
    AtomicClock,
    Gps,
    TerrestrialRadio,
    Ptp,
    Ntp,
    HandSet,
    Other,
    InternalOscillator,
}

impl Clone for TimeSource {
    fn clone(&self) -> (r: Self)
        ensures
            r == *self,
    {
        *self
    }
}

impl Copy for TimeSource {

}

impl TimeSource {
    /// The fixed upper-case name of this source.
    pub fn name(&self) -> (r: &'static str)
        ensures
            r@ == self.spec_name(),
    {
        match self {
            TimeSource::AtomicClock => "ATOMIC_CLOCK",
            TimeSource::Gps => "GPS",
            TimeSource::TerrestrialRadio => "TERRESTRIAL_RADIO",
            TimeSource::Ptp => "PTP",
            TimeSource::Ntp => "NTP",
            TimeSource::HandSet => "HAND_SET",
            TimeSource::Other => "OTHER",
            TimeSource::InternalOscillator => "INTERNAL_OSCILLATOR",
        }
    }

    /// Specification of [`Self::name`].
    pub open spec fn spec_name(&self) -> Seq<char> {
        match self {
            TimeSource::AtomicClock => "ATOMIC_CLOCK"@,
            TimeSource::Gps => "GPS"@,
            TimeSource::TerrestrialRadio => "TERRESTRIAL_RADIO"@,
            TimeSource::Ptp => "PTP"@,
            TimeSource::Ntp => "NTP"@,
            TimeSource::HandSet => "HAND_SET"@,
            TimeSource::Other => "OTHER"@,
            TimeSource::InternalOscillator => "INTERNAL_OSCILLATOR"@,
        }
    }
}

/// Quality of a PTP clock as announced by the grandmaster.
#[derive(Debug, PartialEq, Eq, Structural)]
pub struct ClockQuality {
    /// Clock class (6 is a primary reference, 248 the default).
    pub clock_class: u8,
    /// Clock accuracy code (0x20 means within 25 ns).
    pub clock_accuracy: u8,
    /// Offset scaled log variance, a stability measure.
    pub offset_scaled_log_variance: u16,
}

impl Clone for ClockQuality {
    fn clone(&self) -> (r: Self)
        ensures
            r == *self,
    {
        *self
    }
}

impl Copy for ClockQuality {

}

impl ClockQuality {
    /// Human-readable accuracy for each accuracy code.
    pub open spec fn spec_accuracy_description(&self) -> Seq<char> {
        if self.clock_accuracy == 0x20 {
            "within 25 ns"@
        } else if self.clock_accuracy == 0x21 {
            "within 100 ns"@
        } else if self.clock_accuracy == 0x22 {
            "within 250 ns"@
        } else if self.clock_accuracy == 0x23 {
            "within 1 \u{b5}s"@
        } else if self.clock_accuracy == 0x24 {
            "within 2.5 \u{b5}s"@
        } else if self.clock_accuracy == 0x25 {
            "within 10 \u{b5}s"@
        } else if self.clock_accuracy == 0x26 {
            "within 25 \u{b5}s"@
        } else if self.clock_accuracy == 0x27 {
            "within 100 \u{b5}s"@
        } else if self.clock_accuracy == 0x28 {
            "within 250 \u{b5}s"@
        } else if self.clock_accuracy == 0x29 {
            "within 1 ms"@
        } else if self.clock_accuracy == 0x2A {
            "within 2.5 ms"@
        } else if self.clock_accuracy == 0x2B {
            "within 10 ms"@
        } else if self.clock_accuracy == 0x2C {
            "within 25 ms"@
        } else if self.clock_accuracy == 0x2D {
            "within 100 ms"@
        } else if self.clock_accuracy == 0x2E {
            "within 250 ms"@
        } else if self.clock_accuracy == 0x2F {
            "within 1 s"@
        } else if self.clock_accuracy == 0x30 {
            "within 10 s"@
        } else if self.clock_accuracy == 0x31 {
            "> 10 s"@
        } else {
            "unknown"@
        }
    }

    /// Human-readable accuracy description.
    pub fn accuracy_description(&self) -> (r: &'static str)
        ensures
            r@ == self.spec_accuracy_description(),
    {
        match self.clock_accuracy {
            0x20 => "within 25 ns",
            0x21 => "within 100 ns",
            0x22 => "within 250 ns",
            0x23 => "within 1 \u{b5}s",
            0x24 => "within 2.5 \u{b5}s",
            0x25 => "within 10 \u{b5}s",
            0x26 => "within 25 \u{b5}s",
            0x27 => "within 100 \u{b5}s",
            0x28 => "within 250 \u{b5}s",
            0x29 => "within 1 ms",
            0x2A => "within 2.5 ms",
            0x2B => "within 10 ms",
            0x2C => "within 25 ms",
            0x2D => "within 100 ms",
            0x2E => "within 250 ms",
            0x2F => "within 1 s",
            0x30 => "within 10 s",
            0x31 => "> 10 s",
            _ => "unknown",
        }
    }

    /// Human-readable class for each clock class code.
    pub open spec fn spec_class_description(&self) -> Seq<char> {
        if self.clock_class == 6 {
            "Primary reference (GPS/Atomic)"@
        } else if self.clock_class == 7 {
            "Primary reference (default)"@
        } else if self.clock_class == 13 {
            "Application-specific time source"@
        } else if self.clock_class == 14 {
            "Alternative PTP profile"@
        } else if self.clock_class == 52 {
            "Degraded primary reference (holdover within spec)"@
        } else if self.clock_class == 58 {
            "Degraded primary reference (out of holdover spec)"@
        } else if self.clock_class == 187 {
            "Default slave-only"@
        } else if self.clock_class == 248 {
            "Default (no external reference)"@
        } else if self.clock_class == 255 {
            "Slave-only"@
        } else {
            "Other"@
        }
    }

    /// Human-readable clock class description.
    pub fn class_description(&self) -> (r: &'static str)
        ensures
            r@ == self.spec_class_description(),
    {
        match self.clock_class {
            6 => "Primary reference (GPS/Atomic)",
            7 => "Primary reference (default)",
            13 => "Application-specific time source",
            14 => "Alternative PTP profile",
            52 => "Degraded primary reference (holdover within spec)",
            58 => "Degraded primary reference (out of holdover spec)",
            187 => "Default slave-only",
            248 => "Default (no external reference)",
            255 => "Slave-only",
            _ => "Other",
        }
    }
}

/// PTP target specification.
#[derive(Debug)]
pub struct PtpTarget {
    /// Server hostname or address, as the user typed it.
    pub name: String,
    /// Textual form of the resolved address.
    pub ip: String,
    /// PTP domain number.
    pub domain: u8,
    /// Event message port.
    pub event_port: u16,
    /// General message port.
    pub general_port: u16,
}

impl Clone for PtpTarget {
    fn clone(&self) -> (r: Self)
        ensures
            r.name@ == self.name@,
            r.ip@ == self.ip@,
            r.domain == self.domain,
            r.event_port == self.event_port,
            r.general_port == self.general_port,
    {
        PtpTarget {
            name: self.name.clone(),
            ip: self.ip.clone(),
            domain: self.domain,
            event_port: self.event_port,
            general_port: self.general_port,
        }
    }
}

/// Packet counters of one PTP exchange.
#[derive(Debug, PartialEq, Eq, Structural)]
pub struct PacketStats {
    /// Sync messages sent.
    pub sync_sent: u32,
    /// Sync messages received.
    pub sync_received: u32,
    /// Follow-up messages received.
    pub follow_up_received: u32,
    /// Delay requests sent.
    pub delay_req_sent: u32,
    /// Delay responses received.
    pub delay_resp_received: u32,
    /// Announce messages received.
    pub announce_received: u32,
}

impl Clone for PacketStats {
    fn clone(&self) -> (r: Self)
        ensures
            r == *self,
    {
        *self
    }
}

impl Copy for PacketStats {

}

impl Default for PacketStats {
    /// All counters start at zero.
    fn default() -> (r: Self)
        ensures
            r.sync_sent == 0,
            r.sync_received == 0,
            r.follow_up_received == 0,
            r.delay_req_sent == 0,
            r.delay_resp_received == 0,
            r.announce_received == 0,
    {
        PacketStats {
            sync_sent: 0,
            sync_received: 0,
            follow_up_received: 0,
            delay_req_sent: 0,
            delay_resp_received: 0,
            announce_received: 0,
        }
    }
}

/// Detailed diagnostics of one PTP exchange (verbose mode).
#[derive(Debug)]
pub struct PtpDiagnostics {
    /// Port identity of the master clock.
    pub master_port_identity: PortIdentity,
    /// Whether hardware timestamping was used.
    pub hardware_timestamping: bool,
    /// Description of the timestamp mode.
    pub timestamp_mode: String,
    /// Steps removed from the grandmaster.
    pub steps_removed: u16,
    /// Current UTC offset (TAI minus UTC, seconds).
    pub current_utc_offset: i16,
    /// Whether that offset is valid.
    pub current_utc_offset_valid: bool,
    /// Leap second pending at the end of the day (59-second minute).
    pub leap59: bool,
    /// Leap second pending at the end of the day (61-second minute).
    pub leap61: bool,
    /// Whether time is traceable to a primary reference.
    pub time_traceable: bool,
    /// Whether frequency is traceable to a primary reference.
    pub frequency_traceable: bool,
    /// Whether the PTP timescale is in use.
    pub ptp_timescale: bool,
    /// Packet counters of the exchange.
    pub packet_stats: PacketStats,
    /// How long the measurement took, in nanoseconds.
    pub measurement_duration_ns: u64,
}

impl Clone for PtpDiagnostics {
    fn clone(&self) -> (r: Self)
        ensures
            r.master_port_identity == self.master_port_identity,
            r.hardware_timestamping == self.hardware_timestamping,
            r.timestamp_mode@ == self.timestamp_mode@,
            r.steps_removed == self.steps_removed,
            r.current_utc_offset == self.current_utc_offset,
            r.current_utc_offset_valid == self.current_utc_offset_valid,
            r.leap59 == self.leap59,
            r.leap61 == self.leap61,
            r.time_traceable == self.time_traceable,
            r.frequency_traceable == self.frequency_traceable,
            r.ptp_timescale == self.ptp_timescale,
            r.packet_stats == self.packet_stats,
            r.measurement_duration_ns == self.measurement_duration_ns,
    {
        PtpDiagnostics {
            master_port_identity: self.master_port_identity,
            hardware_timestamping: self.hardware_timestamping,
            timestamp_mode: self.timestamp_mode.clone(),
            steps_removed: self.steps_removed,
            current_utc_offset: self.current_utc_offset,
            current_utc_offset_valid: self.current_utc_offset_valid,
            leap59: self.leap59,
            leap61: self.leap61,
            time_traceable: self.time_traceable,
            frequency_traceable: self.frequency_traceable,
            ptp_timescale: self.ptp_timescale,
            packet_stats: self.packet_stats,
            measurement_duration_ns: self.measurement_duration_ns,
        }
    }
}

/// Result of one PTP time query.
#[derive(Debug)]
pub struct PtpProbeResult {
    /// The target that was probed.
    pub target: PtpTarget,
    /// Clock offset in nanoseconds; positive means the local clock is ahead.
    pub offset_ns: i64,
    /// Mean path delay in nanoseconds.
    pub mean_path_delay_ns: i64,
    /// Identity of the grandmaster clock.
    pub master_identity: ClockIdentity,
    /// Quality announced by the grandmaster.
    pub clock_quality: ClockQuality,
    /// Time source of the grandmaster.
    pub time_source: TimeSource,
    /// Server time as Unix seconds.
    pub timestamp: i64,
    /// Detailed diagnostics, present in verbose mode only.
    pub diagnostics: Option<PtpDiagnostics>,
}

impl Clone for PtpProbeResult {
    fn clone(&self) -> (r: Self)
        ensures
            r.target.name@ == self.target.name@,
            r.target.ip@ == self.target.ip@,
            r.target.domain == self.target.domain,
            r.target.event_port == self.target.event_port,
            r.target.general_port == self.target.general_port,
            r.offset_ns == self.offset_ns,
            r.mean_path_delay_ns == self.mean_path_delay_ns,
            r.master_identity == self.master_identity,
            r.clock_quality == self.clock_quality,
            r.time_source == self.time_source,
            r.timestamp == self.timestamp,
            r.diagnostics is Some <==> self.diagnostics is Some,
    {
        PtpProbeResult {
            target: self.target.clone(),
            offset_ns: self.offset_ns,
            mean_path_delay_ns: self.mean_path_delay_ns,
            master_identity: self.master_identity,
            clock_quality: self.clock_quality,
            time_source: self.time_source,
            timestamp: self.timestamp,
            diagnostics: match &self.diagnostics {
                Some(d) => Some(d.clone()),
                None => None,
            },
        }
    }
}

impl PtpProbeResult {
    /// Whether the local clock is ahead of PTP time.
    pub fn is_ahead(&self) -> (r: bool)
        ensures
            r == (self.offset_ns > 0),
    {
        self.offset_ns > 0
    }

    /// Whether the local clock is behind PTP time.
    pub fn is_behind(&self) -> (r: bool)
        ensures
            r == (self.offset_ns < 0),
    {
        self.offset_ns < 0
    }
}

/// Options controlling a PTP probe.
#[derive(Debug)]
pub struct PtpQueryOptions {
    /// PTP domain number.
    pub domain: u8,
    /// Event message port.
    pub event_port: u16,
    /// General message port.
    pub general_port: u16,
    /// Request hardware timestamping.
    pub hw_timestamping: bool,
    /// Collect detailed diagnostics.
    pub verbose: bool,
}

impl Clone for PtpQueryOptions {
    fn clone(&self) -> (r: Self)
        ensures
            r == *self,
    {
        PtpQueryOptions {
            domain: self.domain,
            event_port: self.event_port,
            general_port: self.general_port,
            hw_timestamping: self.hw_timestamping,
            verbose: self.verbose,
        }
    }
}

impl PtpQueryOptions {
    /// Bundle the probe options.
    pub fn new(
        domain: u8,
        event_port: u16,
        general_port: u16,
        hw_timestamping: bool,
        verbose: bool,
    ) -> (r: Self)
        ensures
            r.domain == domain,
            r.event_port == event_port,
            r.general_port == general_port,
            r.hw_timestamping == hw_timestamping,
            r.verbose == verbose,
    {
        PtpQueryOptions { domain, event_port, general_port, hw_timestamping, verbose }
    }
}

/// The rendering of a nanosecond value with its microsecond equivalent:
/// `<ns> ns (<us>.<uuu> us)`, the microseconds exact to three decimals.
pub open spec fn spec_format_ns(v: int) -> Seq<char> {
    let mag = if v < 0 {
        -v
    } else {
        v
    };
    let sign: Seq<char> = if v < 0 {
        seq!['-']
    } else {
        Seq::empty()
    };
    spec_idec(v) + " ns ("@ + sign + spec_udec((mag / 1000) as nat) + seq!['.'] + spec_pad3(
        mag % 1000,
    ) + " us)"@
}

/// Render a nanosecond value with its microsecond equivalent, exact to
/// three decimals.
pub fn format_ns(value: i64) -> (r: String)
    ensures
        r@ == spec_format_ns(value as int),
{
    let mut out = i64_to_string(value);
    out.append(" ns (");
    if value < 0 {
        out.append("-");
        proof {
            reveal_strlit("-");
            assert("-"@ =~= seq!['-']);
        }
    }
    let mag: u64 = if value < 0 {
        ((-(value + 1)) as u64) + 1
    } else {
        value as u64
    };
    let whole = u64_to_string(mag / 1000);
    out.append(whole.as_str());
    out.append(".");
    proof {
        reveal_strlit(".");
        assert("."@ =~= seq!['.']);
    }
    append_pad3(&mut out, mag % 1000);
    out.append(" us)");
    proof {
        assert(out@ =~= spec_format_ns(value as int));
    }
    out
}

} // verus!
