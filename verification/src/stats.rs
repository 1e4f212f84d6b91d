//! Pure reduction of a sample series into count / average / minimum /
//! maximum summaries, and the cross-target drift derived from per-target
//! averages.

use vstd::prelude::*;

use vstd::arithmetic::div_mod::{lemma_div_by_multiple, lemma_div_is_ordered};

use crate::domain::ProbeResult;
use crate::ptp::PtpProbeResult;

verus! {

/// Sum of a sequence of nanosecond values.
pub open spec fn sum_ns(s: Seq<i64>) -> int
    decreases s.len(),
{
    if s.len() == 0 {
        0
    } else {
        sum_ns(s.drop_last()) + s.last()
    }
}

/// Minimum of a non-empty sequence of nanosecond values.
pub open spec fn min_ns(s: Seq<i64>) -> int
    decreases s.len(),
{
    if s.len() <= 1 {
        if s.len() == 1 {
            s[0] as int
        } else {
            0
        }
    } else {
        let m = min_ns(s.drop_last());
        if (s.last() as int) < m {
            s.last() as int
        } else {
            m
        }
    }
}

/// Maximum of a non-empty sequence of nanosecond values.
pub open spec fn max_ns(s: Seq<i64>) -> int
    decreases s.len(),
{
    if s.len() <= 1 {
        if s.len() == 1 {
            s[0] as int
        } else {
            0
        }
    } else {
        let m = max_ns(s.drop_last());
        if (s.last() as int) > m {
            s.last() as int
        } else {
            m
        }
    }
}

/// Division truncating toward zero, the semantics of machine division.
pub open spec fn div_trunc(a: int, b: int) -> int {
    if a >= 0 {
        a / b
    } else {
        -((-a) / b)
    }
}

/// The truncated mean of a non-empty sequence.
pub open spec fn avg_ns(s: Seq<i64>) -> int {
    div_trunc(sum_ns(s), s.len() as int)
}

/// The offsets of a series, in series order.
pub open spec fn offsets_of(s: Seq<ProbeResult>) -> Seq<i64> {
    s.map_values(|r: ProbeResult| r.offset_ns)
}

/// The round-trip delays of a series, in series order.
pub open spec fn rtts_of(s: Seq<ProbeResult>) -> Seq<i64> {
    s.map_values(|r: ProbeResult| r.rtt_ns)
}

/// Summary of a sample series.  All values are nanoseconds.
#[derive(Debug)]
pub struct Stats {
    /// Number of samples reduced.
    pub count: usize,
    /// Truncated mean of the clock offsets.
    pub offset_avg_ns: i64,
    /// Smallest clock offset.
    pub offset_min_ns: i64,
    /// Largest clock offset.
    pub offset_max_ns: i64,
    /// Truncated mean of the round-trip delays.
    pub rtt_avg_ns: i64,
}

impl Clone for Stats {
    fn clone(&self) -> (r: Self)
        ensures
            r == *self,
    {
        Stats {
            count: self.count,
            offset_avg_ns: self.offset_avg_ns,
            offset_min_ns: self.offset_min_ns,
            offset_max_ns: self.offset_max_ns,
            rtt_avg_ns: self.rtt_avg_ns,
        }
    }
}

/// Truncated mean of a sum of `count` values that each fit in `i64`.
fn mean_of_sum(sum: i128, count: usize) -> (r: i64)
    requires
        count > 0,
        (count as int) * (i64::MIN as int) <= sum as int <= (count as int) * (i64::MAX as int),
    ensures
        r as int == div_trunc(sum as int, count as int),
{
    let ghost c = count as int;
    if sum >= 0 {
        let q = (sum as u128) / (count as u128);
        proof {
            assert((i64::MAX as int) * c == c * (i64::MAX as int)) by (nonlinear_arith);
            lemma_div_by_multiple(i64::MAX as int, c);
            lemma_div_is_ordered(sum as int, (i64::MAX as int) * c, c);
            assert(q as int == (sum as int) / c);
            assert(q as int <= i64::MAX as int);
        }
        q as i64
    } else {
        // Magnitude of the sum, computed without overflowing at the extreme.
        let mag: u128 = ((-(sum + 1)) as u128) + 1;
        let q = mag / (count as u128);
        proof {
            assert(mag as int == -(sum as int));
            assert((-(i64::MIN as int)) * c == -(c * (i64::MIN as int))) by (nonlinear_arith);
            lemma_div_by_multiple(-(i64::MIN as int), c);
            lemma_div_is_ordered(mag as int, (-(i64::MIN as int)) * c, c);
            assert(q as int <= -(i64::MIN as int));
        }
        let negq: i128 = -(q as i128);
        proof {
            assert(negq as int == div_trunc(sum as int, c));
            assert(negq >= i64::MIN as i128);
        }
        negq as i64
    }
}

/// Reduce a non-empty sample series to its summary: the count, the truncated
/// mean, minimum and maximum of the offsets, and the truncated mean of the
/// round-trip delays.  An empty series is a caller error: the sampling loop
/// never computes statistics before the first success is recorded.
pub fn compute_stats(results: &Vec<ProbeResult>) -> (st: Stats)
    requires
        results@.len() > 0,
    ensures
        st.count == results@.len(),
        st.offset_avg_ns as int == avg_ns(offsets_of(results@)),
        st.offset_min_ns as int == min_ns(offsets_of(results@)),
        st.offset_max_ns as int == max_ns(offsets_of(results@)),
        st.rtt_avg_ns as int == avg_ns(rtts_of(results@)),
{
    let ghost offs = offsets_of(results@);
    let ghost rtts = rtts_of(results@);
    let n = results.len();
    let mut sum_off: i128 = 0;
    let mut sum_rtt: i128 = 0;
    let mut mn: i64 = results[0].offset_ns;
    let mut mx: i64 = results[0].offset_ns;
    let mut i: usize = 0;
    while i < n
        invariant
            0 <= i <= n,
            n == results@.len(),
            n > 0,
            offs == offsets_of(results@),
            rtts == rtts_of(results@),
            sum_off as int == sum_ns(offs.take(i as int)),
            sum_rtt as int == sum_ns(rtts.take(i as int)),
            (i as int) * (i64::MIN as int) <= sum_off as int <= (i as int) * (i64::MAX as int),
            (i as int) * (i64::MIN as int) <= sum_rtt as int <= (i as int) * (i64::MAX as int),
            i > 0 ==> mn as int == min_ns(offs.take(i as int)),
            i > 0 ==> mx as int == max_ns(offs.take(i as int)),
            i == 0 ==> mn == offs[0] && mx == offs[0],
        decreases n - i,
    {
        let off = results[i].offset_ns;
        let rtt = results[i].rtt_ns;
        proof {
            assert(offs[i as int] == results@[i as int].offset_ns);
            assert(rtts[i as int] == results@[i as int].rtt_ns);
            assert(offs.take(i + 1).drop_last() =~= offs.take(i as int));
            assert(rtts.take(i + 1).drop_last() =~= rtts.take(i as int));
            assert(offs.take(i + 1).last() == offs[i as int]);
            assert(rtts.take(i + 1).last() == rtts[i as int]);
            assert((i as int + 1) * (i64::MIN as int) == (i as int) * (i64::MIN as int) + (
            i64::MIN as int)) by (nonlinear_arith);
            assert((i as int + 1) * (i64::MAX as int) == (i as int) * (i64::MAX as int) + (
            i64::MAX as int)) by (nonlinear_arith);
        }
        sum_off = sum_off + off as i128;
        sum_rtt = sum_rtt + rtt as i128;
        if i == 0 {
            mn = off;
            mx = off;
        } else {
            if off < mn {
                mn = off;
            }
            if off > mx {
                mx = off;
            }
        }
        i = i + 1;
    }
    proof {
        assert(offs.take(n as int) =~= offs);
        assert(rtts.take(n as int) =~= rtts);
    }
    let offset_avg_ns = mean_of_sum(sum_off, n);
    let rtt_avg_ns = mean_of_sum(sum_rtt, n);
    Stats { count: n, offset_avg_ns, offset_min_ns: mn, offset_max_ns: mx, rtt_avg_ns }
}

/// Cross-target drift: the spread between the largest and the smallest
/// per-target average offset.  Meaningful only when at least two targets
/// produced at least one sample each, so fewer than two averages give
/// nothing.
pub fn max_avg_drift(avgs: &Vec<i64>) -> (r: Option<i128>)
    ensures
        r is Some <==> avgs@.len() >= 2,
        r matches Some(d) ==> d as int == max_ns(avgs@) - min_ns(avgs@),
{
    let n = avgs.len();
    if n < 2 {
        return None;
    }
    let mut mn: i64 = avgs[0];
    let mut mx: i64 = avgs[0];
    let mut i: usize = 1;
    while i < n
        invariant
            1 <= i <= n,
            n == avgs@.len(),
            mn as int == min_ns(avgs@.take(i as int)),
            mx as int == max_ns(avgs@.take(i as int)),
        decreases n - i,
    {
        let v = avgs[i];
        proof {
            assert(avgs@.take(i + 1).drop_last() =~= avgs@.take(i as int));
            assert(avgs@.take(i + 1).last() == avgs@[i as int]);
        }
        if v < mn {
            mn = v;
        }
        if v > mx {
            mx = v;
        }
        i = i + 1;
    }
    proof {
        assert(avgs@.take(n as int) =~= avgs@);
    }
    Some(mx as i128 - mn as i128)
}

/// The offsets of a PTP series, in series order.
pub open spec fn ptp_offsets_of(s: Seq<PtpProbeResult>) -> Seq<i64> {
    s.map_values(|r: PtpProbeResult| r.offset_ns)
}

/// The mean path delays of a PTP series, in series order.
pub open spec fn ptp_delays_of(s: Seq<PtpProbeResult>) -> Seq<i64> {
    s.map_values(|r: PtpProbeResult| r.mean_path_delay_ns)
}

/// Summary of a PTP sample series.  All values are nanoseconds.
#[derive(Debug)]
pub struct PtpStats {
    /// Number of samples reduced.
    pub count: usize,
    /// Truncated mean of the clock offsets.
    pub offset_avg_ns: i64,
    /// Smallest clock offset.
    pub offset_min_ns: i64,
    /// Largest clock offset.
    pub offset_max_ns: i64,
    /// Truncated mean of the mean path delays.
    pub mean_path_delay_avg_ns: i64,
}

impl Clone for PtpStats {
    fn clone(&self) -> (r: Self)
        ensures
            r == *self,
    {
        PtpStats {
            count: self.count,
            offset_avg_ns: self.offset_avg_ns,
            offset_min_ns: self.offset_min_ns,
            offset_max_ns: self.offset_max_ns,
            mean_path_delay_avg_ns: self.mean_path_delay_avg_ns,
        }
    }
}

/// Reduce a PTP sample series to its summary.  Unlike the NTP reduction,
/// an empty series is answered with an all-zero summary rather than
/// refused.
pub fn compute_ptp_stats(results: &Vec<PtpProbeResult>) -> (st: PtpStats)
    ensures
        st.count == results@.len(),
        results@.len() == 0 ==> st.offset_avg_ns == 0 && st.offset_min_ns == 0
            && st.offset_max_ns == 0 && st.mean_path_delay_avg_ns == 0,
        results@.len() > 0 ==> {
            &&& st.offset_avg_ns as int == avg_ns(ptp_offsets_of(results@))
            &&& st.offset_min_ns as int == min_ns(ptp_offsets_of(results@))
            &&& st.offset_max_ns as int == max_ns(ptp_offsets_of(results@))
            &&& st.mean_path_delay_avg_ns as int == avg_ns(ptp_delays_of(results@))
        },
{
    let ghost offs = ptp_offsets_of(results@);
    let ghost dels = ptp_delays_of(results@);
    let n = results.len();
    if n == 0 {
        return PtpStats {
            count: 0,
            offset_avg_ns: 0,
            offset_min_ns: 0,
            offset_max_ns: 0,
            mean_path_delay_avg_ns: 0,
        };
    }
    let mut sum_off: i128 = 0;
    let mut sum_del: i128 = 0;
    let mut mn: i64 = results[0].offset_ns;
    let mut mx: i64 = results[0].offset_ns;
    let mut i: usize = 0;
    while i < n
        invariant
            0 <= i <= n,
            n == results@.len(),
            n > 0,
            offs == ptp_offsets_of(results@),
            dels == ptp_delays_of(results@),
            sum_off as int == sum_ns(offs.take(i as int)),
            sum_del as int == sum_ns(dels.take(i as int)),
            (i as int) * (i64::MIN as int) <= sum_off as int <= (i as int) * (i64::MAX as int),
            (i as int) * (i64::MIN as int) <= sum_del as int <= (i as int) * (i64::MAX as int),
            i > 0 ==> mn as int == min_ns(offs.take(i as int)),
            i > 0 ==> mx as int == max_ns(offs.take(i as int)),
        decreases n - i,
    {
        let off = results[i].offset_ns;
        let del = results[i].mean_path_delay_ns;
        proof {
            assert(offs[i as int] == results@[i as int].offset_ns);
            assert(dels[i as int] == results@[i as int].mean_path_delay_ns);
            assert(offs.take(i + 1).drop_last() =~= offs.take(i as int));
            assert(dels.take(i + 1).drop_last() =~= dels.take(i as int));
            assert(offs.take(i + 1).last() == offs[i as int]);
            assert(dels.take(i + 1).last() == dels[i as int]);
            assert((i as int + 1) * (i64::MIN as int) == (i as int) * (i64::MIN as int) + (
            i64::MIN as int)) by (nonlinear_arith);
            assert((i as int + 1) * (i64::MAX as int) == (i as int) * (i64::MAX as int) + (
            i64::MAX as int)) by (nonlinear_arith);
        }
        sum_off = sum_off + off as i128;
        sum_del = sum_del + del as i128;
        if i == 0 {
            mn = off;
            mx = off;
        } else {
            if off < mn {
                mn = off;
            }
            if off > mx {
                mx = off;
            }
        }
        i = i + 1;
    }
    proof {
        assert(offs.take(n as int) =~= offs);
        assert(dels.take(n as int) =~= dels);
    }
    let offset_avg_ns = mean_of_sum(sum_off, n);
    let mean_path_delay_avg_ns = mean_of_sum(sum_del, n);
    PtpStats { count: n, offset_avg_ns, offset_min_ns: mn, offset_max_ns: mx, mean_path_delay_avg_ns }
}

/// Minimum stratum across a non-empty series.
pub open spec fn min_stratum(s: Seq<ProbeResult>) -> int
    decreases s.len(),
{
    if s.len() <= 1 {
        if s.len() == 1 {
            s[0].stratum as int
        } else {
            0
        }
    } else {
        let m = min_stratum(s.drop_last());
        if (s.last().stratum as int) < m {
            s.last().stratum as int
        } else {
            m
        }
    }
}

/// The synthetic probe used for one-shot clock synchronization: the last
/// sample of the series with its offset and round-trip delay replaced by
/// the series averages, and its stratum by the best (smallest) stratum seen.
pub fn average_probe(results: &Vec<ProbeResult>) -> (r: ProbeResult)
    requires
        results@.len() > 0,
    ensures
        r.offset_ns as int == avg_ns(offsets_of(results@)),
        r.rtt_ns as int == avg_ns(rtts_of(results@)),
        r.stratum as int == min_stratum(results@),
        r.target.name@ == results@.last().target.name@,
        r.target.ip@ == results@.last().target.ip@,
        r.target.port == results@.last().target.port,
        r.timestamp == results@.last().timestamp,
        r.authenticated == results@.last().authenticated,
{
    let st = compute_stats(results);
    let n = results.len();
    let mut avg = results[n - 1].clone();
    avg.offset_ns = st.offset_avg_ns;
    avg.rtt_ns = st.rtt_avg_ns;
    let mut best: u8 = results[0].stratum;
    let mut i: usize = 1;
    while i < n
        invariant
            1 <= i <= n,
            n == results@.len(),
            best as int == min_stratum(results@.take(i as int)),
        decreases n - i,
    {
        proof {
            assert(results@.take(i + 1).drop_last() =~= results@.take(i as int));
            assert(results@.take(i + 1).last() == results@[i as int]);
        }
        if results[i].stratum < best {
            best = results[i].stratum;
        }
        i = i + 1;
    }
    proof {
        assert(results@.take(n as int) =~= results@);
    }
    avg.stratum = best;
    avg
}

} // verus!
