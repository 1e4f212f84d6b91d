//! Monitoring (plugin) mode: threshold validation, the tri-state verdict
//! with its fixed exit codes, and the exact status lines the monitoring
//! contract requires.

use vstd::prelude::*;

use crate::digits::{append_pad3, spec_idec, spec_pad3, spec_udec, i64_to_string, u64_to_string};
use crate::error::RkikError;

verus! {

/// Health verdict of a monitoring run.
#[derive(Debug, PartialEq, Eq, Structural)]
pub enum Verdict {
    /// Offset within bounds.
    Okay,
    /// Offset at or above the warning threshold.
    Warning,
    /// Offset at or above the critical threshold.
    Critical,
    /// No successful sample to judge.
    Unknown,
}

impl Clone for Verdict {
    fn clone(&self) -> (r: Self)
        ensures
            r == *self,
    {
        match self {
            Verdict::Okay => Verdict::Okay,
            Verdict::Warning => Verdict::Warning,
            Verdict::Critical => Verdict::Critical,
            Verdict::Unknown => Verdict::Unknown,
        }
    }
}

impl Verdict {
    /// The fixed process exit code of this verdict.
    pub fn exit_code(&self) -> (code: i32)
        ensures
            code == self.spec_exit_code(),
    {
        match self {
            Verdict::Okay => 0,
            Verdict::Warning => 1,
            Verdict::Critical => 2,
            Verdict::Unknown => 3,
        }
    }

    /// Specification of [`Self::exit_code`]: OK is 0, WARNING 1, CRITICAL 2,
    /// UNKNOWN 3.
    pub open spec fn spec_exit_code(&self) -> int {
        match self {
            Verdict::Okay => 0,
            Verdict::Warning => 1,
            Verdict::Critical => 2,
            Verdict::Unknown => 3,
        }
    }

    /// The label of this verdict in the status line.
    pub fn label(&self) -> (r: &'static str)
        ensures
            r@ == self.spec_label(),
    {
        match self {
            Verdict::Okay => "OK",
            Verdict::Warning => "WARNING",
            Verdict::Critical => "CRITICAL",
            Verdict::Unknown => "UNKNOWN",
        }
    }

    /// Specification of [`Self::label`].
    pub open spec fn spec_label(&self) -> Seq<char> {
        match self {
            Verdict::Okay => "OK"@,
            Verdict::Warning => "WARNING"@,
            Verdict::Critical => "CRITICAL"@,
            Verdict::Unknown => "UNKNOWN"@,
        }
    }
}

/// Magnitude of a signed value.
pub open spec fn abs_ns(v: int) -> int {
    if v < 0 {
        -v
    } else {
        v
    }
}

/// The verdict for an aggregated offset under the configured thresholds:
/// with no successful sample the verdict is UNKNOWN regardless of the
/// thresholds; otherwise CRITICAL when `critical` is set and the magnitude
/// of the average offset reaches it, else WARNING when `warning` is set and
/// the magnitude reaches it, else OK.  Both comparisons are inclusive.
pub open spec fn spec_evaluate(
    sample_count: int,
    offset_avg_ns: int,
    warning_ns: Option<i64>,
    critical_ns: Option<i64>,
) -> Verdict {
    if sample_count == 0 {
        Verdict::Unknown
    } else if critical_ns matches Some(c) && abs_ns(offset_avg_ns) >= c {
        Verdict::Critical
    } else if warning_ns matches Some(w) && abs_ns(offset_avg_ns) >= w {
        Verdict::Warning
    } else {
        Verdict::Okay
    }
}

/// Map an aggregated offset to the monitoring verdict.  See
/// [`spec_evaluate`] for the exact rule.
pub fn evaluate(
    sample_count: usize,
    offset_avg_ns: i64,
    warning_ns: Option<i64>,
    critical_ns: Option<i64>,
) -> (v: Verdict)
    ensures
        v == spec_evaluate(sample_count as int, offset_avg_ns as int, warning_ns, critical_ns),
{
    if sample_count == 0 {
        return Verdict::Unknown;
    }
    let mag: i128 = if offset_avg_ns < 0 {
        -(offset_avg_ns as i128)
    } else {
        offset_avg_ns as i128
    };
    if let Some(c) = critical_ns {
        if mag >= c as i128 {
            return Verdict::Critical;
        }
    }
    if let Some(w) = warning_ns {
        if mag >= w as i128 {
            return Verdict::Warning;
        }
    }
    Verdict::Okay
}

/// The usage error a threshold pair produces, if any: thresholds must be
/// non-negative, and when both are set the warning must lie strictly below
/// the critical one.  Checked in that order, before any probing.
pub open spec fn spec_threshold_issue(
    warning_ns: Option<i64>,
    critical_ns: Option<i64>,
) -> Option<Seq<char>> {
    if warning_ns matches Some(w) && w < 0 {
        Some("--warning must be non-negative"@)
    } else if critical_ns matches Some(c) && c < 0 {
        Some("--critical must be non-negative"@)
    } else if warning_ns matches Some(w) && critical_ns matches Some(c) && w >= c {
        Some("--warning must be less than --critical"@)
    } else {
        None
    }
}

/// Validate the monitoring thresholds before any network activity.
pub fn validate_thresholds(warning_ns: Option<i64>, critical_ns: Option<i64>) -> (r: Result<
    (),
    RkikError,
>)
    ensures
        r is Ok <==> spec_threshold_issue(warning_ns, critical_ns) is None,
        r matches Err(e) ==> e matches RkikError::Usage(m) && Some(m@) == spec_threshold_issue(
            warning_ns,
            critical_ns,
        ),
{
    if let Some(w) = warning_ns {
        if w < 0 {
            return Err(RkikError::Usage("--warning must be non-negative".to_owned()));
        }
    }
    if let Some(c) = critical_ns {
        if c < 0 {
            return Err(RkikError::Usage("--critical must be non-negative".to_owned()));
        }
    }
    if let Some(w) = warning_ns {
        if let Some(c) = critical_ns {
            if w >= c {
                return Err(RkikError::Usage("--warning must be less than --critical".to_owned()));
            }
        }
    }
    Ok(())
}

/// Milliseconds with exactly three decimals for a nanosecond value: the
/// magnitude is rounded to the nearest microsecond, ties away from zero,
/// and a negative value keeps its sign even when it rounds to zero.
pub open spec fn spec_ms3(v: int) -> Seq<char> {
    let us = (abs_ns(v) + 500) / 1000;
    let sign: Seq<char> = if v < 0 {
        seq!['-']
    } else {
        Seq::empty()
    };
    sign + spec_udec((us / 1000) as nat) + seq!['.'] + spec_pad3(us % 1000)
}

/// Render a nanosecond value as milliseconds with three decimals.
pub fn format_ms_3(v: i64) -> (r: String)
    ensures
        r@ == spec_ms3(v as int),
{
    let mag: u64 = if v < 0 {
        ((-(v + 1)) as u64) + 1
    } else {
        v as u64
    };
    proof {
        assert(mag as int == abs_ns(v as int));
    }
    let us: u64 = (mag / 1000) + if mag % 1000 >= 500 {
        1
    } else {
        0
    };
    proof {
        assert(us as int == (abs_ns(v as int) + 500) / 1000) by {
            let m = mag as int;
            let q = m / 1000;
            let rem = m % 1000;
            vstd::arithmetic::div_mod::lemma_fundamental_div_mod(m, 1000);
            if rem >= 500 {
                assert(m + 500 == 1000 * (q + 1) + (rem - 500));
                vstd::arithmetic::div_mod::lemma_div_multiples_vanish_fancy(
                    q + 1,
                    rem - 500,
                    1000,
                );
            } else {
                assert(m + 500 == 1000 * q + (rem + 500));
                vstd::arithmetic::div_mod::lemma_div_multiples_vanish_fancy(q, rem + 500, 1000);
            }
        }
    }
    let mut out = if v < 0 {
        "-".to_owned()
    } else {
        "".to_owned()
    };
    proof {
        reveal_strlit("-");
        reveal_strlit("");
        assert(out@ =~= (if v < 0 {
            seq!['-']
        } else {
            Seq::<char>::empty()
        }));
    }
    let whole = u64_to_string(us / 1000);
    out.append(whole.as_str());
    out.append(".");
    proof {
        reveal_strlit(".");
        assert("."@ =~= seq!['.']);
    }
    append_pad3(&mut out, us % 1000);
    proof {
        assert(out@ =~= spec_ms3(v as int));
    }
    out
}

/// The status line of a completed monitoring run, exactly as the monitoring
/// contract requires:
/// `RKIK <STATE> - offset <o>ms rtt <r>ms from <host> (<ip>) |
/// offset_ms=<o>ms;<warn>;<crit>;0; rtt_ms=<r>ms;;;0;`
/// where `<o>` and `<r>` carry three decimals and the thresholds are echoed
/// as the caller rendered them (empty when unset).
pub open spec fn spec_status_line(
    label: Seq<char>,
    offset_ns: int,
    rtt_ns: int,
    host: Seq<char>,
    ip: Seq<char>,
    warn_str: Seq<char>,
    crit_str: Seq<char>,
) -> Seq<char> {
    "RKIK "@ + label + " - offset "@ + spec_ms3(offset_ns) + "ms rtt "@ + spec_ms3(rtt_ns)
        + "ms from "@ + host + " ("@ + ip + ") | offset_ms="@ + spec_ms3(offset_ns) + "ms;"@
        + warn_str + ";"@ + crit_str + ";0; rtt_ms="@ + spec_ms3(rtt_ns) + "ms;;;0;"@
}

/// Build the monitoring status line for a run that produced samples.
pub fn status_line(
    verdict: &Verdict,
    offset_ns: i64,
    rtt_ns: i64,
    host: &str,
    ip: &str,
    warn_str: &str,
    crit_str: &str,
) -> (r: String)
    ensures
        r@ == spec_status_line(
            verdict.spec_label(),
            offset_ns as int,
            rtt_ns as int,
            host@,
            ip@,
            warn_str@,
            crit_str@,
        ),
{
    let offset_text = format_ms_3(offset_ns);
    let rtt_text = format_ms_3(rtt_ns);
    let mut out = "RKIK ".to_owned();
    out.append(verdict.label());
    out.append(" - offset ");
    out.append(offset_text.as_str());
    out.append("ms rtt ");
    out.append(rtt_text.as_str());
    out.append("ms from ");
    out.append(host);
    out.append(" (");
    out.append(ip);
    out.append(") | offset_ms=");
    out.append(offset_text.as_str());
    out.append("ms;");
    out.append(warn_str);
    out.append(";");
    out.append(crit_str);
    out.append(";0; rtt_ms=");
    out.append(rtt_text.as_str());
    out.append("ms;;;0;");
    proof {
        assert(out@ =~= spec_status_line(
            verdict.spec_label(),
            offset_ns as int,
            rtt_ns as int,
            host@,
            ip@,
            warn_str@,
            crit_str@,
        ));
    }
    out
}

/// The UNKNOWN status line of a run that produced no sample.
pub open spec fn spec_unknown_line(warn_str: Seq<char>, crit_str: Seq<char>) -> Seq<char> {
    "RKIK UNKNOWN - request failed | offset_ms=;"@ + warn_str + ";"@ + crit_str
        + ";0; rtt_ms=;;;0;"@
}

/// Build the UNKNOWN status line emitted when every attempt failed.
pub fn unknown_line(warn_str: &str, crit_str: &str) -> (r: String)
    ensures
        r@ == spec_unknown_line(warn_str@, crit_str@),
{
    let mut out = "RKIK UNKNOWN - request failed | offset_ms=;".to_owned();
    out.append(warn_str);
    out.append(";");
    out.append(crit_str);
    out.append(";0; rtt_ms=;;;0;");
    proof {
        assert(out@ =~= spec_unknown_line(warn_str@, crit_str@));
    }
    out
}

/// The status line of a PTP monitoring run:
/// `RKIK <STATE> - offset <o>ns delay <d>ns from <host> (<ip>) |
/// offset_ns=<o>ns;<warn>;<crit>;0; delay_ns=<d>ns;;;0;`.
pub open spec fn spec_ptp_status_line(
    label: Seq<char>,
    offset_ns: int,
    delay_ns: int,
    host: Seq<char>,
    ip: Seq<char>,
    warn_str: Seq<char>,
    crit_str: Seq<char>,
) -> Seq<char> {
    "RKIK "@ + label + " - offset "@ + spec_idec(offset_ns) + "ns delay "@ + spec_idec(delay_ns)
        + "ns from "@ + host + " ("@ + ip + ") | offset_ns="@ + spec_idec(offset_ns) + "ns;"@
        + warn_str + ";"@ + crit_str + ";0; delay_ns="@ + spec_idec(delay_ns) + "ns;;;0;"@
}

/// Build the PTP monitoring status line.
pub fn ptp_status_line(
    verdict: &Verdict,
    offset_ns: i64,
    delay_ns: i64,
    host: &str,
    ip: &str,
    warn_str: &str,
    crit_str: &str,
) -> (r: String)
    ensures
        r@ == spec_ptp_status_line(
            verdict.spec_label(),
            offset_ns as int,
            delay_ns as int,
            host@,
            ip@,
            warn_str@,
            crit_str@,
        ),
{
    let offset_text = i64_to_string(offset_ns);
    let delay_text = i64_to_string(delay_ns);
    let mut out = "RKIK ".to_owned();
    out.append(verdict.label());
    out.append(" - offset ");
    out.append(offset_text.as_str());
    out.append("ns delay ");
    out.append(delay_text.as_str());
    out.append("ns from ");
    out.append(host);
    out.append(" (");
    out.append(ip);
    out.append(") | offset_ns=");
    out.append(offset_text.as_str());
    out.append("ns;");
    out.append(warn_str);
    out.append(";");
    out.append(crit_str);
    out.append(";0; delay_ns=");
    out.append(delay_text.as_str());
    out.append("ns;;;0;");
    proof {
        assert(out@ =~= spec_ptp_status_line(
            verdict.spec_label(),
            offset_ns as int,
            delay_ns as int,
            host@,
            ip@,
            warn_str@,
            crit_str@,
        ));
    }
    out
}

/// The UNKNOWN status line of a PTP run that produced no sample.
pub open spec fn spec_ptp_unknown_line(warn_str: Seq<char>, crit_str: Seq<char>) -> Seq<char> {
    "RKIK UNKNOWN - PTP request failed | offset_ns=;"@ + warn_str + ";"@ + crit_str
        + ";0; delay_ns=;;;0;"@
}

/// Build the UNKNOWN status line of a failed PTP monitoring run.
pub fn ptp_unknown_line(warn_str: &str, crit_str: &str) -> (r: String)
    ensures
        r@ == spec_ptp_unknown_line(warn_str@, crit_str@),
{
    let mut out = "RKIK UNKNOWN - PTP request failed | offset_ns=;".to_owned();
    out.append(warn_str);
    out.append(";");
    out.append(crit_str);
    out.append(";0; delay_ns=;;;0;");
    proof {
        assert(out@ =~= spec_ptp_unknown_line(warn_str@, crit_str@));
    }
    out
}

} // verus!
