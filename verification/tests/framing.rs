use rux_http::framing::{parse_content_length, persists, CLOSE, CONNECTION, CONTENT_LENGTH, KEEP_ALIVE};
use rux_http::request::{bytes_equal, Header, HeaderSlots, Request, HEADER_SLOTS};

fn header(name: &str, value: &[u8]) -> Header {
    Header { name: name.as_bytes().to_vec(), value: value.to_vec() }
}

#[test]
fn content_length_is_decimal_text() {
    assert_eq!(parse_content_length(b"0"), Some(0));
    assert_eq!(parse_content_length(b"5"), Some(5));
    assert_eq!(parse_content_length(b"10485760"), Some(10485760));
    assert_eq!(parse_content_length(b"007"), Some(7));
}

#[test]
fn content_length_may_lead_with_one_plus_sign() {
    assert_eq!(parse_content_length(b"+5"), Some(5));
    assert_eq!(parse_content_length(b"++5"), None);
    assert_eq!(parse_content_length(b"+"), None);
}

#[test]
fn content_length_refuses_what_is_no_number() {
    assert_eq!(parse_content_length(b""), None);
    assert_eq!(parse_content_length(b"abc"), None);
    assert_eq!(parse_content_length(b"-1"), None);
    assert_eq!(parse_content_length(b" 5"), None);
    assert_eq!(parse_content_length(b"5 "), None);
    assert_eq!(parse_content_length(b"5a"), None);
    assert_eq!(parse_content_length(b"1.5"), None);
    assert_eq!(parse_content_length(&[0x35, 0xff]), None);
    assert_eq!(parse_content_length(&[0xc3, 0x28]), None);
}

#[test]
fn content_length_agrees_with_the_standard_parse() {
    let cases: [&str; 12] =
        ["0", "5", "+5", "", "+", "-0", "abc", "12345", "00012", "1 ", "99999999999999999999999", "\u{ff14}"];
    for text in cases {
        let expected: Option<usize> = text.parse().ok();
        assert_eq!(parse_content_length(text.as_bytes()), expected, "{:?}", text);
    }
}

#[test]
fn content_length_stops_at_the_word_size() {
    let max = usize::MAX.to_string();
    assert_eq!(parse_content_length(max.as_bytes()), Some(usize::MAX));
    let mut over = max.clone();
    over.push('0');
    assert_eq!(parse_content_length(over.as_bytes()), None);
    let digits: Vec<u8> = max.bytes().collect();
    let mut next = digits.clone();
    let last = next.len() - 1;
    // usize::MAX ends in 5 on 32 and 64 bits, so one more is still ten digits wide.
    next[last] += 1;
    assert_eq!(parse_content_length(&next), None);
}

#[test]
fn http_1_1_persists_unless_told_to_close() {
    assert!(persists(Some(1), None));
    assert!(persists(Some(1), Some(b"keep-alive")));
    assert!(persists(Some(1), Some(b"upgrade")));
    assert!(!persists(Some(1), Some(b"close")));
    assert!(persists(Some(1), Some(b"Close")));
}

#[test]
fn http_1_0_persists_only_when_asked_to() {
    assert!(!persists(Some(0), None));
    assert!(persists(Some(0), Some(b"keep-alive")));
    assert!(!persists(Some(0), Some(b"close")));
    assert!(!persists(Some(0), Some(b"upgrade")));
    assert!(!persists(Some(0), Some(b"Keep-Alive")));
    assert!(!persists(None, None));
    assert!(persists(None, Some(b"keep-alive")));
}

#[test]
fn the_tokens_are_what_the_wire_says() {
    assert_eq!(CONTENT_LENGTH, "Content-Length");
    assert_eq!(CONNECTION, "Connection");
    assert_eq!(CLOSE, "close");
    assert_eq!(KEEP_ALIVE, "keep-alive");
}

#[test]
fn bytes_equal_compares_bytes() {
    assert!(bytes_equal(b"", b""));
    assert!(bytes_equal(b"abc", b"abc"));
    assert!(!bytes_equal(b"abc", b"abd"));
    assert!(!bytes_equal(b"abc", b"ab"));
    assert!(!bytes_equal(b"ab", b"abc"));
}

#[test]
fn header_slots_start_empty_and_hold_twenty_four() {
    let slots = HeaderSlots::new();
    assert_eq!(HEADER_SLOTS, 24);
    assert_eq!(slots.capacity(), 24);
    assert_eq!(slots.len(), 0);
    assert_eq!(slots.find_last(b"Host"), None);
}

#[test]
fn find_last_takes_the_last_of_a_name() {
    let mut slots = HeaderSlots::new();
    slots.fill(vec![
        header("Host", b"x"),
        header("Content-Length", b"1"),
        header("Accept", b"*/*"),
        header("Content-Length", b"2"),
        header("content-length", b"3"),
    ]);
    assert_eq!(slots.len(), 5);
    assert_eq!(slots.find_last(b"Content-Length"), Some(3));
    assert_eq!(slots.get(3).value, b"2");
    assert_eq!(slots.find_last(b"Host"), Some(0));
    assert_eq!(slots.find_last(b"content-length"), Some(4));
    assert_eq!(slots.find_last(b"Connection"), None);
    slots.reset();
    assert_eq!(slots.len(), 0);
    assert_eq!(slots.find_last(b"Host"), None);
}

#[test]
fn fill_replaces_what_the_slots_held() {
    let mut slots = HeaderSlots::new();
    slots.fill(vec![header("A", b"1"), header("B", b"2")]);
    slots.fill(vec![header("C", b"3")]);
    assert_eq!(slots.len(), 1);
    assert_eq!(slots.get(0).name, b"C");
    assert_eq!(slots.find_last(b"A"), None);
}

#[test]
fn a_new_request_has_nothing_parsed() {
    let request = Request::new();
    assert_eq!(request.method, None);
    assert_eq!(request.path, None);
    assert_eq!(request.version, None);
    assert_eq!(request.headers, 0);
}
