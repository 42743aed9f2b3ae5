use tls_nal::target::{parse_port, parse_target, InvalidTarget};

#[test]
fn host_and_port_are_split_at_the_colon() {
    assert_eq!(parse_target("example.invalid:443"), Ok(("example.invalid", 443)));
    assert_eq!(parse_target("203.0.113.5:8883"), Ok(("203.0.113.5", 8883)));
    assert_eq!(parse_target("a:7"), Ok(("a", 7)));
}

#[test]
fn the_last_colon_splits() {
    assert_eq!(parse_target("a:b:80"), Ok(("a:b", 80)));
    assert_eq!(parse_target("[2001:db8::1]:443"), Ok(("[2001:db8::1]", 443)));
    assert_eq!(parse_target("::1:22"), Ok(("::1", 22)));
    assert_eq!(parse_target("80:host"), Err(InvalidTarget));
}

#[test]
fn port_bounds() {
    assert_eq!(parse_target("h:0"), Ok(("h", 0)));
    assert_eq!(parse_target("h:65535"), Ok(("h", 65535)));
    assert_eq!(parse_target("h:65536"), Err(InvalidTarget));
    assert_eq!(parse_target("h:65540"), Err(InvalidTarget));
    assert_eq!(parse_target("h:70000"), Err(InvalidTarget));
    assert_eq!(parse_target("h:100000"), Err(InvalidTarget));
    assert_eq!(parse_target("h:4294967296"), Err(InvalidTarget));
    assert_eq!(parse_target("h:4294967339"), Err(InvalidTarget));
    assert_eq!(parse_target("h:99999999999999999999999999"), Err(InvalidTarget));
}

#[test]
fn absent_port_is_refused() {
    assert_eq!(parse_target("example.invalid"), Err(InvalidTarget));
    assert_eq!(parse_target("example.invalid:"), Err(InvalidTarget));
    assert_eq!(parse_target(""), Err(InvalidTarget));
    assert_eq!(parse_target(":"), Err(InvalidTarget));
}

#[test]
fn port_that_is_no_number_is_refused() {
    for target in ["h:http", "h:-1", "h:80a", "h:a80", "h: 80", "h:80 ", "h:8 0", "h:0x50", "h:+", "h:++1", "h:+-1", "h:1+", "h:٣", "h:８０"] {
        assert_eq!(parse_target(target), Err(InvalidTarget), "{target:?}");
    }
}

#[test]
fn leading_zeros_and_plus_are_read_over() {
    assert_eq!(parse_target("h:00080"), Ok(("h", 80)));
    assert_eq!(parse_target("h:0000000000000000000000443"), Ok(("h", 443)));
    assert_eq!(parse_target("h:+443"), Ok(("h", 443)));
    assert_eq!(parse_target("h:+0"), Ok(("h", 0)));
    assert_eq!(parse_target("h:000065535"), Ok(("h", 65535)));
    assert_eq!(parse_target("h:000065536"), Err(InvalidTarget));
}

#[test]
fn host_is_taken_as_it_stands() {
    assert_eq!(parse_target(":80"), Ok(("", 80)));
    assert_eq!(parse_target(" spaced host :80"), Ok((" spaced host ", 80)));
    assert_eq!(parse_target("bücher.example:443"), Ok(("bücher.example", 443)));
    assert_eq!(parse_target("例え.テスト:1"), Ok(("例え.テスト", 1)));
}

#[test]
fn parse_port_reads_what_u16_from_str_reads() {
    let texts = [
        "", "0", "1", "80", "443", "65535", "65536", "099", "+1", "+", "-1", "-0", "1e3", " 1", "1 ", "00000",
        "+00065535", "+65536", "655350", "6553a", "0065535", "18446744073709551616", "++1", "٣", "80:",
    ];
    for text in texts {
        assert_eq!(parse_port(text), text.parse::<u16>().ok(), "{text:?}");
    }
    assert_eq!(parse_port("443"), Some(443));
    assert_eq!(parse_port("65535"), Some(65535));
    assert_eq!(parse_port("65536"), None);
}

#[test]
fn every_port_is_read_back_from_its_decimal_text() {
    for port in 0..=u16::MAX {
        let text = format!("{port}");
        assert_eq!(parse_port(&text), Some(port));
    }
    let target = format!("host:{}", 31337);
    assert_eq!(parse_target(&target), Ok(("host", 31337)));
}
