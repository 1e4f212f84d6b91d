use rkik::ptp::format_ns;
use rkik::ptp_sim::{
    derive_clock_identity, derive_clock_quality, derive_offset, derive_packet_stats,
    derive_path_delay, derive_steps_removed, derive_time_source,
};
use rkik::{
    compute_ptp_stats, ClockIdentity, ClockQuality, PortIdentity, PtpProbeResult, PtpTarget,
    TimeSource,
};

fn sample_probe(offset_ns: i64, delay_ns: i64) -> PtpProbeResult {
    PtpProbeResult {
        target: PtpTarget {
            name: "lab-master".to_string(),
            ip: "127.0.0.1".to_string(),
            domain: 24,
            event_port: 3319,
            general_port: 3320,
        },
        offset_ns,
        mean_path_delay_ns: delay_ns,
        master_identity: ClockIdentity([0, 1, 2, 3, 4, 5, 6, 7]),
        clock_quality: ClockQuality {
            clock_class: 6,
            clock_accuracy: 0x20,
            offset_scaled_log_variance: 0x100,
        },
        time_source: TimeSource::Gps,
        timestamp: 1_700_000_000,
        diagnostics: None,
    }
}

#[test]
fn test_clock_identity_display() {
    let id = ClockIdentity([0x00, 0x1B, 0x21, 0xAB, 0xCD, 0xEF, 0x00, 0x01]);
    assert_eq!(id.to_hex_string(), "00:1B:21:AB:CD:EF:00:01");
}

#[test]
fn test_port_identity_display() {
    let port = PortIdentity {
        clock_identity: ClockIdentity([0x00, 0x1B, 0x21, 0xAB, 0xCD, 0xEF, 0x00, 0x01]),
        port_number: 1,
    };
    assert_eq!(port.to_display_string(), "00:1B:21:AB:CD:EF:00:01:1");
}

#[test]
fn test_clock_quality_descriptions() {
    let quality = ClockQuality {
        clock_class: 6,
        clock_accuracy: 0x20,
        offset_scaled_log_variance: 0,
    };

    assert_eq!(quality.class_description(), "Primary reference (GPS/Atomic)");
    assert_eq!(quality.accuracy_description(), "within 25 ns");
}

#[test]
fn ptp_stats_report_expected_values() {
    let probes = vec![sample_probe(1_000, 5_000), sample_probe(-500, 7_000)];
    let stats = compute_ptp_stats(&probes);
    assert_eq!(stats.count, 2);
    assert_eq!(stats.offset_avg_ns, 250);
    assert_eq!(stats.offset_min_ns, -500);
    assert_eq!(stats.offset_max_ns, 1_000);
    assert_eq!(stats.mean_path_delay_avg_ns, 6_000);
}

#[test]
fn ptp_stats_of_empty_series_are_zero() {
    let stats = compute_ptp_stats(&vec![]);
    assert_eq!(stats.count, 0);
    assert_eq!(stats.offset_avg_ns, 0);
    assert_eq!(stats.offset_min_ns, 0);
    assert_eq!(stats.offset_max_ns, 0);
    assert_eq!(stats.mean_path_delay_avg_ns, 0);
}

#[test]
fn probe_direction_flags() {
    assert!(sample_probe(1_500_000, 1).is_ahead());
    assert!(!sample_probe(1_500_000, 1).is_behind());
    assert!(sample_probe(-1, 1).is_behind());
    assert!(!sample_probe(0, 1).is_ahead());
    assert!(!sample_probe(0, 1).is_behind());
}

#[test]
fn format_ns_renders_microseconds() {
    assert_eq!(format_ns(1_000), "1000 ns (1.000 us)");
    assert_eq!(format_ns(1_500_000), "1500000 ns (1500.000 us)");
    assert_eq!(format_ns(-500), "-500 ns (-0.500 us)");
    assert_eq!(format_ns(0), "0 ns (0.000 us)");
    assert_eq!(format_ns(12), "12 ns (0.012 us)");
}

#[test]
fn time_source_names() {
    assert_eq!(TimeSource::AtomicClock.name(), "ATOMIC_CLOCK");
    assert_eq!(TimeSource::Gps.name(), "GPS");
    assert_eq!(TimeSource::InternalOscillator.name(), "INTERNAL_OSCILLATOR");
}

#[test]
fn derived_probe_data_is_deterministic() {
    // Equal seeds give equal derived data.
    let seed = 0x0102_0304_0506_0708u64;
    assert_eq!(derive_clock_identity(seed).0, derive_clock_identity(seed).0);
    assert_eq!(
        derive_clock_identity(seed).0,
        [0x08, 0x07, 0x06, 0x05, 0x04, 0x03, 0x02, 0x01]
    );
    assert_eq!(derive_offset(seed), derive_offset(seed));
    assert_eq!(derive_time_source(seed), derive_time_source(seed));
}

#[test]
fn derived_values_from_zero_seed() {
    let q = derive_clock_quality(0);
    assert_eq!(q.clock_class, 6);
    assert_eq!(q.clock_accuracy, 0x20);
    assert_eq!(q.offset_scaled_log_variance, 0x0100);
    assert_eq!(derive_time_source(0), TimeSource::AtomicClock);
    assert_eq!(derive_offset(0), -2_000_000);
    assert_eq!(derive_path_delay(0), 10_000);
    assert_eq!(derive_steps_removed(0), 0);
    let p = derive_packet_stats(0);
    assert_eq!(p.sync_received, 1);
    assert_eq!(p.delay_req_sent, 1);
    assert_eq!(p.delay_resp_received, 1);
}

#[test]
fn derived_offset_of_negative_seed() {
    // A seed that reads as a negative machine word reduces like one.
    assert_eq!(derive_offset(u64::MAX), (-1 - 200_000) * 10);
    assert_eq!(derive_path_delay(1 << 11), 10_010);
}
