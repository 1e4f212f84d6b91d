//! Deterministic derivation of simulated PTP probe data from a seed.  The
//! surrounding binary hashes the target parameters into the seed and stamps
//! the timing; everything derived from the seed is computed and proved
//! here, so equal seeds always yield equal probe data.

use vstd::prelude::*;

use crate::ptp::{ClockIdentity, ClockQuality, PacketStats, TimeSource};

verus! {

/// Byte `i` of the seed, least significant first.
pub open spec fn spec_seed_byte(seed: u64, i: int) -> u64 {
    (seed >> (i * 8)) & 0xFF
}

/// Derive the simulated grandmaster identity: the eight bytes of the seed,
/// least significant first.
pub fn derive_clock_identity(seed: u64) -> (r: ClockIdentity)
    ensures
        forall|i: int| 0 <= i < 8 ==> r.0@[i] == spec_seed_byte(seed, i),
{
    let mut bytes: [u8; 8] = [0; 8];
    let mut i: usize = 0;
    while i < 8
        invariant
            0 <= i <= 8,
            bytes@.len() == 8,
            forall|j: int| 0 <= j < i ==> bytes@[j] == spec_seed_byte(seed, j),
        decreases 8 - i,
    {
        let shift: u64 = (i as u64) * 8;
        let b: u64 = (seed >> shift) & 0xFF;
        proof {
            assert((seed >> shift) & 0xFF < 256) by (bit_vector);
        }
        bytes[i] = b as u8;
        i = i + 1;
    }
    ClockIdentity(bytes)
}

/// The simulated clock class for each low-bit pattern of the seed.
pub open spec fn spec_clock_class(seed: u64) -> u8 {
    let sel = seed & 0x7;
    if sel == 0 {
        6
    } else if sel == 1 {
        7
    } else if sel == 2 {
        13
    } else if sel == 3 {
        52
    } else if sel == 4 {
        58
    } else if sel == 5 {
        187
    } else if sel == 6 {
        248
    } else {
        255
    }
}

/// Derive the simulated clock quality: a class drawn from the low bits, an
/// accuracy code in `0x20..0x30`, and a variance with its `0x0100` bit set.
pub fn derive_clock_quality(seed: u64) -> (r: ClockQuality)
    ensures
        r.clock_class == spec_clock_class(seed),
        r.clock_accuracy == 0x20 + (((seed >> 8) & 0xFF) % 0x10),
        r.offset_scaled_log_variance == ((seed >> 16) & 0xFFFF) | 0x0100,
{
    let sel = seed & 0x7;
    proof {
        assert(seed & 0x7 < 8) by (bit_vector);
        assert((seed >> 8) & 0xFF < 256) by (bit_vector);
        assert((seed >> 16) & 0xFFFF < 65536) by (bit_vector);
        assert(((seed >> 16) & 0xFFFF) | 0x0100 < 65536) by (bit_vector);
    }
    let clock_class: u8 = match sel {
        0 => 6,
        1 => 7,
        2 => 13,
        3 => 52,
        4 => 58,
        5 => 187,
        6 => 248,
        _ => 255,
    };
    let accuracy_sel: u64 = ((seed >> 8) & 0xFF) % 0x10;
    let variance: u64 = ((seed >> 16) & 0xFFFF) | 0x0100;
    ClockQuality {
        clock_class,
        clock_accuracy: 0x20 + accuracy_sel as u8,
        offset_scaled_log_variance: variance as u16,
    }
}

/// The simulated time source for each residue of the seed modulo seven.
pub open spec fn spec_time_source(seed: u64) -> TimeSource {
    let sel = seed % 7;
    if sel == 0 {
        TimeSource::AtomicClock
    } else if sel == 1 {
        TimeSource::Gps
    } else if sel == 2 {
        TimeSource::TerrestrialRadio
    } else if sel == 3 {
        TimeSource::Ptp
    } else if sel == 4 {
        TimeSource::Ntp
    } else if sel == 5 {
        TimeSource::HandSet
    } else {
        TimeSource::InternalOscillator
    }
}

/// Derive the simulated time source from the seed modulo seven.
pub fn derive_time_source(seed: u64) -> (r: TimeSource)
    ensures
        r == spec_time_source(seed),
{
    match seed % 7 {
        0 => TimeSource::AtomicClock,
        1 => TimeSource::Gps,
        2 => TimeSource::TerrestrialRadio,
        3 => TimeSource::Ptp,
        4 => TimeSource::Ntp,
        5 => TimeSource::HandSet,
        _ => TimeSource::InternalOscillator,
    }
}

/// The seed reinterpreted as a signed machine word.
pub open spec fn spec_seed_signed(seed: u64) -> int {
    if seed <= i64::MAX {
        seed as int
    } else {
        seed as int - 0x1_0000_0000_0000_0000
    }
}

/// Remainder truncating toward zero, the semantics of machine remainder.
pub open spec fn mod_trunc(a: int, b: int) -> int {
    if a >= 0 {
        a % b
    } else {
        -((-a) % b)
    }
}

/// The simulated clock offset: the signed seed reduced to within two
/// hundred thousand either side, recentered, and scaled to nanoseconds.
pub open spec fn spec_offset(seed: u64) -> int {
    (mod_trunc(spec_seed_signed(seed), 400_000) - 200_000) * 10
}

/// Derive the simulated clock offset in nanoseconds.
pub fn derive_offset(seed: u64) -> (r: i64)
    ensures
        r as int == spec_offset(seed),
{
    let reduced: i64 = if seed <= i64::MAX as u64 {
        (seed % 400_000) as i64
    } else {
        // The signed reinterpretation is negative: reduce its magnitude.
        let mag: u64 = (u64::MAX - seed) + 1;
        proof {
            assert(mag as int == -spec_seed_signed(seed));
        }
        -((mag % 400_000) as i64)
    };
    (reduced - 200_000) * 10
}

/// The simulated mean path delay: up to half a millisecond, never zero.
pub open spec fn spec_path_delay(seed: u64) -> int {
    (((seed >> 11) % 50_000) + 1_000) * 10
}

/// Derive the simulated mean path delay in nanoseconds.
pub fn derive_path_delay(seed: u64) -> (r: i64)
    ensures
        r as int == spec_path_delay(seed),
{
    let base: i64 = ((seed >> 11) % 50_000) as i64;
    (base + 1_000) * 10
}

/// Derive the simulated packet counters.  Every receive-side counter that a
/// successful exchange requires is at least one.
pub fn derive_packet_stats(seed: u64) -> (r: PacketStats)
    ensures
        r.sync_sent == (seed >> 5) % 3,
        r.sync_received == (seed >> 8) % 10 + 1,
        r.follow_up_received == (seed >> 10) % 8,
        r.delay_req_sent == (seed >> 12) % 5 + 1,
        r.delay_resp_received == (seed >> 14) % 5 + 1,
        r.announce_received == (seed >> 16) % 3,
{
    PacketStats {
        sync_sent: ((seed >> 5) % 3) as u32,
        sync_received: ((seed >> 8) % 10) as u32 + 1,
        follow_up_received: ((seed >> 10) % 8) as u32,
        delay_req_sent: ((seed >> 12) % 5) as u32 + 1,
        delay_resp_received: ((seed >> 14) % 5) as u32 + 1,
        announce_received: ((seed >> 16) % 3) as u32,
    }
}

/// Steps removed from the grandmaster in the simulated diagnostics.
pub fn derive_steps_removed(seed: u64) -> (r: u16)
    ensures
        r == (seed >> 3) % 4,
{
    ((seed >> 3) % 4) as u16
}

} // verus!
