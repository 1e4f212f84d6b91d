use rkik::config::ConfigData;
use rkik::output::resolve_format;
use rkik::plugin::{format_ms_3, ptp_status_line, ptp_unknown_line, status_line, unknown_line};
use rkik::resolver::{select_ip, IpAddress};
use rkik::sampling::{FailureAction, RunPhase, DEFAULT_INTERVAL_MS};
use rkik::stats::{average_probe, max_avg_drift};
use rkik::sync::{sync_adjustment_us, sync_withheld, SyncError};
use rkik::{
    build_probe_result, collect_batch, compute_stats, evaluate, plan_probe,
    validate_compare_targets, validate_sampling, validate_thresholds, OutputFormat, ProbeResult,
    RkikError, SamplingConfig, SamplingRun, SeriesMap, Verdict,
};

fn measurement(name: &str, offset_ns: i64, rtt_ns: i64) -> ProbeResult {
    build_probe_result(
        name,
        "192.0.2.1".to_string(),
        123,
        offset_ns,
        rtt_ns,
        2,
        "GPS".to_string(),
        1_700_000_000,
        false,
    )
}

fn v4(text: &str) -> IpAddress {
    IpAddress { is_ipv6: false, text: text.to_string() }
}

fn v6(text: &str) -> IpAddress {
    IpAddress { is_ipv6: true, text: text.to_string() }
}

#[test]
fn resolver_prefers_ipv4_when_both_exist() {
    // IPv4 wins whenever any IPv4 record exists and IPv6 is not forced.
    let addrs = vec![v6("2001:db8::1"), v4("192.0.2.7"), v4("192.0.2.8"), v6("2001:db8::2")];
    let picked = select_ip(&addrs, false, "host").unwrap();
    assert!(!picked.is_ipv6);
    assert_eq!(picked.text, "192.0.2.7");
}

#[test]
fn resolver_ipv6_only_picks_first_ipv6() {
    let addrs = vec![v4("192.0.2.7"), v6("2001:db8::1"), v6("2001:db8::2")];
    let picked = select_ip(&addrs, true, "host").unwrap();
    assert!(picked.is_ipv6);
    assert_eq!(picked.text, "2001:db8::1");
}

#[test]
fn resolver_ipv6_only_fails_without_ipv6() {
    let addrs = vec![v4("192.0.2.7")];
    match select_ip(&addrs, true, "ipv4.example").unwrap_err() {
        RkikError::Dns(m) => assert_eq!(m, "No IPv6 address found for 'ipv4.example'"),
        _ => panic!("expected a DNS error"),
    }
}

#[test]
fn resolver_falls_back_to_ipv6_without_ipv4() {
    let addrs = vec![v6("2001:db8::9")];
    let picked = select_ip(&addrs, false, "host").unwrap();
    assert_eq!(picked.text, "2001:db8::9");
}

#[test]
fn unresolvable_host_is_a_dns_error_with_exit_code_2() {
    // An empty address list, as system resolution of an unresolvable name
    // yields, surfaces as a DNS failure, and an interactive run exits 2.
    let e = select_ip(&vec![], false, "no.such.domain.example").unwrap_err();
    match &e {
        RkikError::Dns(m) => assert_eq!(m, "No IP address found for 'no.such.domain.example'"),
        _ => panic!("expected a DNS error"),
    }
    assert_eq!(e.exit_code(), 2);
}

#[test]
fn error_exit_codes() {
    assert_eq!(RkikError::Dns("x".into()).exit_code(), 2);
    assert_eq!(RkikError::Timeout("x".into()).exit_code(), 3);
    assert_eq!(RkikError::Network("x".into()).exit_code(), 1);
    assert_eq!(RkikError::Protocol("x".into()).exit_code(), 1);
    assert_eq!(RkikError::Other("x".into()).exit_code(), 1);
}

#[test]
fn error_messages_carry_their_kind() {
    assert_eq!(RkikError::Dns("nope".into()).message(), "dns: nope");
    assert_eq!(RkikError::Usage("bad flags".into()).message(), "usage: bad flags");
}

#[test]
fn plan_probe_defaults_and_overrides() {
    let plan = plan_probe("time.google.com", false, 123).unwrap();
    assert_eq!(plan.host, "time.google.com");
    assert_eq!(plan.port, 123);
    assert!(!plan.ipv6);

    let plan = plan_probe("time.google.com:10123", false, 123).unwrap();
    assert_eq!(plan.port, 10123);

    // An IPv6 literal forces IPv6 resolution regardless of the flag.
    let plan = plan_probe("[2001:db8::1]:123", false, 123).unwrap();
    assert!(plan.ipv6);
    assert_eq!(plan.host, "2001:db8::1");
}

#[test]
fn fanout_keeps_successes_in_input_order() {
    // Three targets, exactly one fails: the batch yields exactly the two
    // successes, in input order, and no batch-level error.
    let outcomes: Vec<Result<ProbeResult, RkikError>> = vec![
        Ok(measurement("a", 1, 10)),
        Err(RkikError::Timeout("b timed out".into())),
        Ok(measurement("c", 3, 30)),
    ];
    let got = collect_batch(&outcomes).unwrap();
    assert_eq!(got.len(), 2);
    assert_eq!(got[0].target.name, "a");
    assert_eq!(got[1].target.name, "c");
}

#[test]
fn fanout_reports_fully_failed_batch() {
    let outcomes: Vec<Result<ProbeResult, RkikError>> = vec![
        Err(RkikError::Dns("first".into())),
        Err(RkikError::Timeout("second".into())),
    ];
    match collect_batch(&outcomes).unwrap_err() {
        RkikError::Dns(m) => assert_eq!(m, "first"),
        _ => panic!("expected the first failure back"),
    }
}

#[test]
fn fanout_empty_batch_is_empty_success() {
    assert!(collect_batch(&vec![]).unwrap().is_empty());
}

#[test]
fn stats_of_known_series() {
    // Offsets of 1.0, -1.0 and 3.0 milliseconds.
    let series = vec![
        measurement("s", 1_000_000, 2_000_000),
        measurement("s", -1_000_000, 4_000_000),
        measurement("s", 3_000_000, 6_000_000),
    ];
    let st = compute_stats(&series);
    assert_eq!(st.count, 3);
    assert_eq!(st.offset_avg_ns, 1_000_000);
    assert_eq!(st.offset_min_ns, -1_000_000);
    assert_eq!(st.offset_max_ns, 3_000_000);
    assert_eq!(st.rtt_avg_ns, 4_000_000);
}

#[test]
fn stats_average_truncates_toward_zero() {
    let series = vec![measurement("s", -1, 0), measurement("s", -2, 0)];
    let st = compute_stats(&series);
    assert_eq!(st.offset_avg_ns, -1);
}

#[test]
fn average_probe_carries_best_stratum() {
    let mut a = measurement("s", 1_000, 500);
    a.stratum = 3;
    let mut b = measurement("s", 3_000, 700);
    b.stratum = 1;
    let avg = average_probe(&vec![a, b]);
    assert_eq!(avg.offset_ns, 2_000);
    assert_eq!(avg.rtt_ns, 600);
    assert_eq!(avg.stratum, 1);
}

#[test]
fn drift_needs_two_targets() {
    assert_eq!(max_avg_drift(&vec![]), None);
    assert_eq!(max_avg_drift(&vec![5]), None);
    assert_eq!(max_avg_drift(&vec![5, -3, 10]), Some(13));
}

#[test]
fn threshold_boundaries_are_inclusive() {
    let w = Some(5_000_000i64);
    let c = Some(10_000_000i64);
    assert_eq!(evaluate(1, 5_000_000, w, c), Verdict::Warning);
    assert_eq!(evaluate(1, 10_000_000, w, c), Verdict::Critical);
    assert_eq!(evaluate(1, 4_999_000, w, c), Verdict::Okay);
    assert_eq!(evaluate(1, -10_000_000, w, c), Verdict::Critical);
    // Zero successful samples force UNKNOWN regardless of thresholds.
    assert_eq!(evaluate(0, 0, w, c), Verdict::Unknown);
    assert_eq!(evaluate(0, 99_000_000, w, c), Verdict::Unknown);
}

#[test]
fn verdict_exit_codes_and_labels() {
    assert_eq!(Verdict::Okay.exit_code(), 0);
    assert_eq!(Verdict::Warning.exit_code(), 1);
    assert_eq!(Verdict::Critical.exit_code(), 2);
    assert_eq!(Verdict::Unknown.exit_code(), 3);
    assert_eq!(Verdict::Okay.label(), "OK");
    assert_eq!(Verdict::Unknown.label(), "UNKNOWN");
}

#[test]
fn threshold_validation_rules() {
    assert!(validate_thresholds(None, None).is_ok());
    assert!(validate_thresholds(Some(5), Some(10)).is_ok());
    assert!(validate_thresholds(Some(-1), None).is_err());
    assert!(validate_thresholds(None, Some(-1)).is_err());
    // Equal thresholds are refused: warning must be strictly below.
    match validate_thresholds(Some(10), Some(10)).unwrap_err() {
        RkikError::Usage(m) => assert_eq!(m, "--warning must be less than --critical"),
        _ => panic!("expected a usage error"),
    }
}

#[test]
fn sampling_mutual_exclusion() {
    // infinite with an explicit count is refused before any probing.
    let cfg = SamplingConfig { infinite: true, count: 5, interval_ms: DEFAULT_INTERVAL_MS };
    match validate_sampling(&cfg).unwrap_err() {
        RkikError::Usage(m) => assert_eq!(m, "--infinite cannot be used with --count"),
        _ => panic!("expected a usage error"),
    }
    // A non-default interval needs repeated sampling.
    let cfg = SamplingConfig { infinite: false, count: 1, interval_ms: 2_000 };
    match validate_sampling(&cfg).unwrap_err() {
        RkikError::Usage(m) => assert_eq!(m, "--interval requires --infinite or --count"),
        _ => panic!("expected a usage error"),
    }
    let cfg = SamplingConfig { infinite: false, count: 4, interval_ms: 2_000 };
    assert!(validate_sampling(&cfg).is_ok());
    let cfg = SamplingConfig { infinite: true, count: 1, interval_ms: 500 };
    assert!(validate_sampling(&cfg).is_ok());
}

#[test]
fn sampling_run_counts_and_stops() {
    let cfg = SamplingConfig { infinite: false, count: 2, interval_ms: DEFAULT_INTERVAL_MS };
    let mut run = SamplingRun::new(cfg);
    assert!(matches!(run.phase, RunPhase::Idle));

    run.begin_iteration();
    run.record_success(measurement("s", 10, 20));
    assert!(run.end_iteration(false));
    assert!(matches!(run.phase, RunPhase::Sleeping));

    run.begin_iteration();
    run.record_failure();
    assert!(!run.end_iteration(false));
    assert!(matches!(run.phase, RunPhase::Done));

    assert_eq!(run.completed, 2);
    assert_eq!(run.series.len(), 1);
    assert!(!run.should_print_stats(false));
}

#[test]
fn monitoring_swallows_failures_interactive_aborts() {
    let cfg = SamplingConfig { infinite: false, count: 2, interval_ms: DEFAULT_INTERVAL_MS };
    let run = SamplingRun::new(cfg);
    assert!(matches!(
        run.on_failure(true, &RkikError::Timeout("t".into())),
        FailureAction::RecordAndContinue
    ));
    match run.on_failure(false, &RkikError::Dns("d".into())) {
        FailureAction::AbortWith(code) => assert_eq!(code, 2),
        _ => panic!("expected an abort"),
    }
}

#[test]
fn infinite_run_stops_on_cancellation() {
    let cfg = SamplingConfig { infinite: true, count: 1, interval_ms: DEFAULT_INTERVAL_MS };
    let mut run = SamplingRun::new(cfg);
    run.begin_iteration();
    run.record_success(measurement("s", 10, 20));
    assert!(run.end_iteration(false));
    run.begin_iteration();
    run.record_success(measurement("s", 11, 21));
    // Cancellation ends the run but keeps the iteration already recorded.
    assert!(!run.end_iteration(true));
    assert_eq!(run.series.len(), 2);
}

#[test]
fn series_map_groups_by_name_in_first_seen_order() {
    let mut map = SeriesMap::new();
    map.push_result(measurement("b", 1, 1));
    map.push_result(measurement("a", 2, 2));
    map.push_result(measurement("b", 3, 3));
    assert_eq!(map.entries.len(), 2);
    assert_eq!(map.entries[0].0, "b");
    assert_eq!(map.entries[0].1.len(), 2);
    assert_eq!(map.entries[0].1[1].offset_ns, 3);
    assert_eq!(map.entries[1].0, "a");
    assert_eq!(map.entries[1].1.len(), 1);
}

#[test]
fn status_line_matches_monitoring_contract() {
    let line = status_line(
        &Verdict::Okay,
        1_000_000,
        2_500_000,
        "pool.ntp.org",
        "192.0.2.1",
        "5",
        "10",
    );
    assert_eq!(
        line,
        "RKIK OK - offset 1.000ms rtt 2.500ms from pool.ntp.org (192.0.2.1) | offset_ms=1.000ms;5;10;0; rtt_ms=2.500ms;;;0;"
    );
}

#[test]
fn unknown_line_matches_monitoring_contract() {
    assert_eq!(
        unknown_line("5", "10"),
        "RKIK UNKNOWN - request failed | offset_ms=;5;10;0; rtt_ms=;;;0;"
    );
    assert_eq!(
        unknown_line("", ""),
        "RKIK UNKNOWN - request failed | offset_ms=;;;0; rtt_ms=;;;0;"
    );
}

#[test]
fn ptp_status_lines_match_monitoring_contract() {
    let line = ptp_status_line(
        &Verdict::Warning,
        -1_500,
        6_000,
        "lab-master",
        "192.0.2.9",
        "1000",
        "2000",
    );
    assert_eq!(
        line,
        "RKIK WARNING - offset -1500ns delay 6000ns from lab-master (192.0.2.9) | offset_ns=-1500ns;1000;2000;0; delay_ns=6000ns;;;0;"
    );
    assert_eq!(
        ptp_unknown_line("", ""),
        "RKIK UNKNOWN - PTP request failed | offset_ns=;;;0; delay_ns=;;;0;"
    );
}

#[test]
fn format_ms_3_rounds_to_microseconds() {
    assert_eq!(format_ms_3(1_000_000), "1.000");
    assert_eq!(format_ms_3(1_234_499), "1.234");
    assert_eq!(format_ms_3(1_234_500), "1.235");
    assert_eq!(format_ms_3(-400), "-0.000");
    assert_eq!(format_ms_3(-1_500_000), "-1.500");
}

#[test]
fn output_format_names_and_aliases() {
    assert_eq!(OutputFormat::Text.as_str(), "text");
    assert_eq!(OutputFormat::Json.as_str(), "json");
    assert_eq!(OutputFormat::Simple.as_str(), "simple");
    assert_eq!(OutputFormat::JsonShort.as_str(), "json-short");

    assert_eq!(resolve_format(OutputFormat::Text, true, false), OutputFormat::Json);
    assert_eq!(resolve_format(OutputFormat::Text, false, true), OutputFormat::Simple);
    assert_eq!(resolve_format(OutputFormat::Text, true, true), OutputFormat::JsonShort);
    assert_eq!(resolve_format(OutputFormat::Json, false, false), OutputFormat::Json);
}

#[test]
fn sync_decisions() {
    assert!(sync_withheld(false, false));
    assert!(sync_withheld(true, true));
    assert!(!sync_withheld(true, false));
    assert_eq!(sync_adjustment_us(1_500), 2);
    assert_eq!(sync_adjustment_us(-1_500), -2);
    assert_eq!(sync_adjustment_us(1_499), 1);
    assert_eq!(SyncError::Permission("p".into()).exit_code(), 12);
    assert_eq!(SyncError::Sys("s".into()).exit_code(), 14);
    assert_eq!(SyncError::NotSupported.exit_code(), 15);
}

#[test]
fn config_presets_add_remove_lookup() {
    let mut cfg = ConfigData::new();
    cfg.add_preset("nightly".to_string(), vec!["ntp".to_string(), "pool.ntp.org".to_string()]);
    cfg.add_preset("fast".to_string(), vec!["--count".to_string(), "3".to_string()]);
    // Replacement keeps the position and changes the arguments.
    cfg.add_preset("nightly".to_string(), vec!["nts".to_string()]);
    assert_eq!(cfg.presets.len(), 2);
    assert_eq!(cfg.presets[0].0, "nightly");
    assert_eq!(cfg.preset("nightly").unwrap().args, vec!["nts".to_string()]);
    assert!(cfg.preset("missing").is_none());
    assert!(cfg.remove_preset("nightly"));
    assert!(!cfg.remove_preset("nightly"));
    assert_eq!(cfg.presets.len(), 1);
    assert_eq!(cfg.presets[0].0, "fast");
}

#[test]
fn compare_needs_two_targets() {
    assert!(validate_compare_targets(0).is_err());
    assert!(validate_compare_targets(1).is_err());
    assert!(validate_compare_targets(2).is_ok());
}
