use arylterm::host::{parse_host_and_port, HostError};
use arylterm::text::NumberError;

#[test]
fn parses_plain_host() {
    let (host, port) = parse_host_and_port("example.com").unwrap();
    assert_eq!(host, "example.com");
    assert_eq!(port, None);
}

#[test]
fn parses_host_and_port() {
    let (host, port) = parse_host_and_port("49.235.144.5:31022").unwrap();
    assert_eq!(host, "49.235.144.5");
    assert_eq!(port, Some(31022));
}

#[test]
fn parses_bracketed_ipv6_and_port() {
    let (host, port) = parse_host_and_port("[2001:db8::1]:2222").unwrap();
    assert_eq!(host, "2001:db8::1");
    assert_eq!(port, Some(2222));
}

#[test]
fn leaves_unbracketed_ipv6_without_port() {
    let (host, port) = parse_host_and_port("2001:db8::1").unwrap();
    assert_eq!(host, "2001:db8::1");
    assert_eq!(port, None);
}

#[test]
fn parses_bracketed_host_without_port() {
    let (host, port) = parse_host_and_port("[::1]").unwrap();
    assert_eq!(host, "::1");
    assert_eq!(port, None);
}

#[test]
fn parses_odd_hosts() {
    let (host, port) = parse_host_and_port("").unwrap();
    assert_eq!((host.as_str(), port), ("", None));
    let (host, port) = parse_host_and_port(":22").unwrap();
    assert_eq!((host.as_str(), port), ("", Some(22)));
    let (host, port) = parse_host_and_port("[]:+7").unwrap();
    assert_eq!((host.as_str(), port), ("", Some(7)));
    let (host, port) = parse_host_and_port("büro:65535").unwrap();
    assert_eq!((host.as_str(), port), ("büro", Some(65535)));
}

#[test]
fn rejects_unclosed_bracket() {
    match parse_host_and_port("[::1") {
        Err(HostError::Invalid(input)) => assert_eq!(input, "[::1"),
        other => panic!("{:?}", other),
    }
}

#[test]
fn rejects_text_after_bracket() {
    match parse_host_and_port("[::1]22") {
        Err(HostError::Invalid(input)) => assert_eq!(input, "[::1]22"),
        other => panic!("{:?}", other),
    }
}

#[test]
fn rejects_bad_ports() {
    let reason = |input: &str| match parse_host_and_port(input) {
        Err(HostError::Port(reason)) => reason,
        other => panic!("{:?}", other),
    };
    assert_eq!(reason("host:"), NumberError::Empty);
    assert_eq!(reason("[::1]:"), NumberError::Empty);
    assert_eq!(reason("host:ssh"), NumberError::InvalidDigit);
    assert_eq!(reason("[::1]:2x"), NumberError::InvalidDigit);
    assert_eq!(reason("host:65536"), NumberError::Overflow);
}

#[test]
fn host_errors_have_messages() {
    let message = |input: &str| parse_host_and_port(input).unwrap_err().message();
    assert_eq!(message("[::1"), "invalid host value: [::1");
    assert_eq!(message("[::1]22"), "invalid host value: [::1]22");
    assert_eq!(message("host:ssh"), "host port must be a number");
    assert_eq!(message("host:65536"), "host port must be a number");
}
