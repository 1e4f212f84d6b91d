use rkik::query::{colon_count, parse_port_strict, parse_target};
use rkik::RkikError;

fn message_of(e: RkikError) -> String {
    match e {
        RkikError::Other(m) => m,
        other => panic!("expected Other, got {}", kind_of(&other)),
    }
}

fn kind_of(e: &RkikError) -> &'static str {
    match e {
        RkikError::Dns(_) => "dns",
        RkikError::Network(_) => "network",
        RkikError::Timeout(_) => "timeout",
        RkikError::Protocol(_) => "protocol",
        RkikError::Nts(_) => "nts",
        RkikError::Usage(_) => "usage",
        RkikError::Other(_) => "other",
    }
}

#[test]
fn parse_plain_hostname() {
    let pt = parse_target("time.google.com").unwrap();
    assert_eq!(pt.host, "time.google.com");
    assert_eq!(pt.port, None);
    assert!(!pt.is_ipv6_literal);
}

#[test]
fn parse_host_with_port_round_trip() {
    // For any host:port with a canonical decimal port, re-rendering the
    // parsed fields reproduces the input.
    for s in ["time.google.com:123", "1.2.3.4:65535", "a:1", "pool.ntp.org:10123"] {
        let pt = parse_target(s).unwrap();
        assert!(!pt.is_ipv6_literal);
        let back = format!("{}:{}", pt.host, pt.port.unwrap());
        assert_eq!(back, s);
    }
}

#[test]
fn parse_trims_whitespace() {
    let pt = parse_target("  time.google.com:123\t\n").unwrap();
    assert_eq!(pt.host, "time.google.com");
    assert_eq!(pt.port, Some(123));
}

#[test]
fn parse_port_bounds() {
    // Port 0 and ports above 65535 are refused; 1 and 65535 are accepted.
    assert!(parse_target("host:0").is_err());
    assert!(parse_target("host:70000").is_err());
    assert_eq!(parse_target("host:1").unwrap().port, Some(1));
    assert_eq!(parse_target("host:65535").unwrap().port, Some(65535));
}

#[test]
fn parse_port_error_messages() {
    let m = message_of(parse_target("host:0").unwrap_err());
    assert_eq!(m, "port out of range [1..65535]: 0");
    let m = message_of(parse_target("host:70000").unwrap_err());
    assert_eq!(m, "port out of range [1..65535]: 70000");
    let m = message_of(parse_target("host:12x").unwrap_err());
    assert_eq!(m, "invalid port: '12x'");
}

#[test]
fn parse_port_strict_grammar() {
    // The same grammar a u32 accepts: optional plus sign, leading zeros.
    assert_eq!(parse_port_strict("123").unwrap(), 123);
    assert_eq!(parse_port_strict("+123").unwrap(), 123);
    assert_eq!(parse_port_strict("007").unwrap(), 7);
    assert!(parse_port_strict("").is_err());
    assert!(parse_port_strict("+").is_err());
    assert!(parse_port_strict("99999999999999999999").is_err());
    assert!(parse_port_strict("4294967296").is_err());
}

#[test]
fn parse_bare_ipv6_never_takes_a_port() {
    // Two or more colons make a bare IPv6 literal: the trailing :123 is
    // part of the literal, never a port, since the form is ambiguous.
    let pt = parse_target("2001:db8::1:123").unwrap();
    assert!(pt.is_ipv6_literal);
    assert_eq!(pt.host, "2001:db8::1:123");
    assert_eq!(pt.port, None);
}

#[test]
fn parse_bracketed_ipv6_with_port() {
    let pt = parse_target("[2001:db8::1]:123").unwrap();
    assert!(pt.is_ipv6_literal);
    assert_eq!(pt.host, "2001:db8::1");
    assert_eq!(pt.port, Some(123));
}

#[test]
fn parse_bare_ipv6_literal() {
    let pt = parse_target("2001:db8::1").unwrap();
    assert!(pt.is_ipv6_literal);
    assert_eq!(pt.host, "2001:db8::1");
    assert_eq!(pt.port, None);
}

#[test]
fn parse_bracketed_ipv6_without_port() {
    let pt = parse_target("[::1]").unwrap();
    assert!(pt.is_ipv6_literal);
    assert_eq!(pt.host, "::1");
    assert_eq!(pt.port, None);
}

#[test]
fn colon_counting() {
    assert_eq!(colon_count("host"), 0);
    assert_eq!(colon_count("host:123"), 1);
    assert_eq!(colon_count("2001:db8::1"), 3);
}

#[test]
fn parse_rejects_empty_input() {
    let m = message_of(parse_target("   ").unwrap_err());
    assert_eq!(m, "empty target");
}

#[test]
fn parse_rejects_unclosed_bracket() {
    let m = message_of(parse_target("[2001:db8::1").unwrap_err());
    assert_eq!(m, "missing closing ']' in '[2001:db8::1'");
}

#[test]
fn parse_rejects_trailing_garbage_after_bracket() {
    let m = message_of(parse_target("[::1]x").unwrap_err());
    assert_eq!(m, "unexpected trailing characters in '[::1]x'");
}

#[test]
fn parse_rejects_missing_host() {
    let m = message_of(parse_target(":123").unwrap_err());
    assert_eq!(m, "missing host before port in ':123'");
}
