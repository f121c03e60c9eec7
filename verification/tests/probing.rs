use oxidown::error::ProgramError;
use oxidown::http::{
    accepts_byte_ranges, parse_content_length, parse_total_from_content_range, probe_from_head,
    probe_from_range, probe_step, range_header_value, HeadReply, ProbeAction, ProbeEvent,
    RangeReply,
};
use oxidown::text::{append_decimal, contains_lowercased, parse_u64, to_chars};
use oxidown::types::ProbeResult;

const NO_LENGTH: &str = "cannot determine total length (no valid Content-Length/Content-Range)";

fn head(content_length: Option<&str>, accept_ranges: Option<&str>) -> HeadReply {
    HeadReply {
        content_length: content_length.map(|s| s.to_string()),
        accept_ranges: accept_ranges.map(|s| s.to_string()),
    }
}

fn range(status: u16, content_range: Option<&str>) -> RangeReply {
    RangeReply { status, content_range: content_range.map(|s| s.to_string()) }
}

#[test]
fn probe_via_headers() {
    let result = probe_from_head(&head(Some("12345"), Some("bytes")));
    assert_eq!(result, Some(ProbeResult { content_length: 12345, accept_ranges: true }));
}

#[test]
fn probe_via_range_request() {
    let result = probe_from_range(&range(206, Some("bytes 0-0/500"))).unwrap();
    assert_eq!(result, ProbeResult { content_length: 500, accept_ranges: true });
}

#[test]
fn probe_with_unknown_total_fails() {
    match probe_from_range(&range(206, Some("bytes 0-0/*"))) {
        Err(ProgramError::Other(text)) => assert_eq!(text, NO_LENGTH),
        other => panic!("unexpected result {:?}", other),
    }
}

#[test]
fn probe_without_content_range_fails() {
    match probe_from_range(&range(206, None)) {
        Err(ProgramError::Other(text)) => assert_eq!(text, NO_LENGTH),
        other => panic!("unexpected result {:?}", other),
    }
    assert!(probe_from_range(&range(200, Some("bytes 0-0"))).is_err());
    assert!(probe_from_range(&range(200, Some(""))).is_err());
}

#[test]
fn range_probe_without_partial_content_has_no_range_support() {
    let result = probe_from_range(&range(200, Some("bytes 0-0/777"))).unwrap();
    assert_eq!(result, ProbeResult { content_length: 777, accept_ranges: false });
    let result = probe_from_range(&range(206, Some("bytes 0-0/0"))).unwrap();
    assert_eq!(result, ProbeResult { content_length: 0, accept_ranges: true });
}

#[test]
fn head_without_positive_length_settles_nothing() {
    assert_eq!(probe_from_head(&head(None, Some("bytes"))), None);
    assert_eq!(probe_from_head(&head(Some("0"), Some("bytes"))), None);
    assert_eq!(probe_from_head(&head(Some("abc"), Some("bytes"))), None);
    assert_eq!(probe_from_head(&head(Some(" 12"), None)), None);
}

#[test]
fn head_range_support_follows_the_unit_list() {
    let probe = |units: Option<&str>| probe_from_head(&head(Some("10"), units)).unwrap();
    assert!(probe(Some("bytes")).accept_ranges);
    assert!(probe(Some("Bytes")).accept_ranges);
    assert!(probe(Some("items, BYTES")).accept_ranges);
    assert!(!probe(Some("none")).accept_ranges);
    assert!(!probe(Some("byte")).accept_ranges);
    assert!(!probe(None).accept_ranges);
    assert_eq!(probe(None).content_length, 10);
}

#[test]
fn probe_asks_for_head_first_then_for_the_first_byte() {
    assert!(matches!(probe_step(ProbeEvent::Start), ProbeAction::SendHead));
    assert!(matches!(
        probe_step(ProbeEvent::Head(None)),
        ProbeAction::SendRange { start: 0, end_inclusive: 0 }
    ));
    assert!(matches!(
        probe_step(ProbeEvent::Head(Some(head(Some("0"), Some("bytes"))))),
        ProbeAction::SendRange { start: 0, end_inclusive: 0 }
    ));
    match probe_step(ProbeEvent::Head(Some(head(Some("12345"), Some("bytes"))))) {
        ProbeAction::Done(Ok(result)) => {
            assert_eq!(result, ProbeResult { content_length: 12345, accept_ranges: true })
        }
        other => panic!("unexpected action {:?}", other),
    }
    match probe_step(ProbeEvent::Range(Ok(range(206, Some("bytes 0-0/500"))))) {
        ProbeAction::Done(Ok(result)) => {
            assert_eq!(result, ProbeResult { content_length: 500, accept_ranges: true })
        }
        other => panic!("unexpected action {:?}", other),
    }
    match probe_step(ProbeEvent::Range(Ok(range(206, Some("bytes 0-0/*"))))) {
        ProbeAction::Done(Err(ProgramError::Other(text))) => assert_eq!(text, NO_LENGTH),
        other => panic!("unexpected action {:?}", other),
    }
    match probe_step(ProbeEvent::Range(Err(ProgramError::Http("connection reset".to_string())))) {
        ProbeAction::Done(Err(ProgramError::Http(text))) => assert_eq!(text, "connection reset"),
        other => panic!("unexpected action {:?}", other),
    }
}

#[test]
fn content_range_total_is_the_number_after_the_last_slash() {
    assert_eq!(parse_total_from_content_range("bytes 0-0/12345"), Some(12345));
    assert_eq!(parse_total_from_content_range("bytes 0-0/*"), None);
    assert_eq!(parse_total_from_content_range("bytes 0-0"), None);
    assert_eq!(parse_total_from_content_range(""), None);
    assert_eq!(parse_total_from_content_range("/"), None);
    assert_eq!(parse_total_from_content_range("bytes 0-0/"), None);
    assert_eq!(parse_total_from_content_range("a/b/12"), Some(12));
    assert_eq!(parse_total_from_content_range("12/b"), None);
    assert_eq!(parse_total_from_content_range("/+5"), Some(5));
    assert_eq!(parse_total_from_content_range("/ 5"), None);
    assert_eq!(parse_total_from_content_range("/5 "), None);
    assert_eq!(parse_total_from_content_range("/18446744073709551615"), Some(u64::MAX));
    assert_eq!(parse_total_from_content_range("/18446744073709551616"), None);
    assert_eq!(parse_total_from_content_range("é/7"), Some(7));
}

#[test]
fn content_length_defaults_to_zero() {
    assert_eq!(parse_content_length(Some("12345")), 12345);
    assert_eq!(parse_content_length(Some("0")), 0);
    assert_eq!(parse_content_length(Some("")), 0);
    assert_eq!(parse_content_length(Some("-1")), 0);
    assert_eq!(parse_content_length(Some("1e3")), 0);
    assert_eq!(parse_content_length(None), 0);
}

#[test]
fn byte_ranges_are_recognised_in_any_case() {
    assert!(accepts_byte_ranges(Some("bytes")));
    assert!(accepts_byte_ranges(Some("BYTES")));
    assert!(accepts_byte_ranges(Some("xbYtEsx")));
    assert!(!accepts_byte_ranges(Some("b ytes")));
    assert!(!accepts_byte_ranges(Some("")));
    assert!(!accepts_byte_ranges(Some("byt")));
    assert!(!accepts_byte_ranges(None));
}

#[test]
fn range_header_names_both_ends() {
    assert_eq!(range_header_value(0, 0), "bytes=0-0");
    assert_eq!(range_header_value(333, 665), "bytes=333-665");
    assert_eq!(range_header_value(0, u64::MAX), "bytes=0-18446744073709551615");
}

#[test]
fn parse_u64_agrees_with_the_standard_parser() {
    let samples = [
        "", "0", "7", "+7", "-7", "++7", "+", "-", "007", "12a", "a12", " 12", "12 ", "1_000",
        "18446744073709551615", "18446744073709551616", "99999999999999999999999",
        "000000000000000000000000000018446744073709551615", "+18446744073709551615", "٣", "1٣",
        "0x10", "1.0", "4294967296", "\u{ff11}",
    ];
    for sample in samples {
        assert_eq!(parse_u64(sample), sample.parse::<u64>().ok(), "input {:?}", sample);
    }
    for n in 0..2000u64 {
        assert_eq!(parse_u64(&n.to_string()), Some(n));
    }
}

#[test]
fn decimal_rendering_agrees_with_the_standard_formatter() {
    for n in (0..3000u64).chain([u64::MAX, u64::MAX - 1, 1 << 32, 10_000_000_000]) {
        let mut text = String::from("n=");
        append_decimal(&mut text, n);
        assert_eq!(text, format!("n={}", n));
    }
}

#[test]
fn search_lowers_only_the_haystack() {
    assert!(contains_lowercased("Accept BYTES here", "bytes"));
    assert!(!contains_lowercased("accept bytes here", "BYTES"));
    assert!(contains_lowercased("anything", ""));
    assert!(contains_lowercased("", ""));
    assert!(!contains_lowercased("", "a"));
    assert!(contains_lowercased("ÀB", "àb") == "ÀB".to_ascii_lowercase().contains("àb"));
    assert_eq!(to_chars("añb"), vec!['a', 'ñ', 'b']);
}
