use yeelight::discover::{bulb_address, parse, trim_start_matches};

fn answer(text: &str) -> Vec<u8> {
    let mut buf = text.as_bytes().to_vec();
    buf.resize(2048, 0);
    buf
}

const ANSWER: &str = "HTTP/1.1 200 OK\r\nCache-Control: max-age=3600\r\nDate: \r\nExt: \r\nLocation: yeelight://192.168.1.239:55443\r\nServer: POSIX UPnP/1.0 YGLC/1\r\nid: 0x000000000015243f\r\nmodel: color\r\nfw_ver: 18\r\n";

#[test]
fn parse_discovery_answer() {
    let buf = answer(ANSWER);
    let (id, headers) = parse(&buf, ANSWER.len()).unwrap();
    assert_eq!(id, 0x15243f);
    let get = |k: &str| headers.iter().find(|(key, _)| key == k).map(|(_, v)| v.clone());
    assert_eq!(get("Location"), Some("yeelight://192.168.1.239:55443".to_string()));
    assert_eq!(get("model"), Some("color".to_string()));
    assert_eq!(get("Date"), Some("".to_string()));
    assert_eq!(headers.len(), 8);
}

#[test]
fn parse_rejects_other_status() {
    let text = "HTTP/1.1 404 Not Found\r\nid: 0x1\r\n";
    assert!(parse(&answer(text), text.len()).is_none());
    let probe = "M-SEARCH * HTTP/1.1\r\nid: 0x1\r\n";
    assert!(parse(&answer(probe), probe.len()).is_none());
}

#[test]
fn parse_requires_hex_id() {
    let none = "HTTP/1.1 200 OK\r\nmodel: mono\r\n";
    assert!(parse(&answer(none), none.len()).is_none());
    let bad = "HTTP/1.1 200 OK\r\nid: 0xzz\r\n";
    assert!(parse(&answer(bad), bad.len()).is_none());
    let too_big = "HTTP/1.1 200 OK\r\nid: 0x1ffffffffffffffff\r\n";
    assert!(parse(&answer(too_big), too_big.len()).is_none());
}

#[test]
fn parse_last_header_wins_and_prefix_repeats() {
    let text = "HTTP/1.1 200 OK\r\nid: 0x10\r\nid: 0x0xAB\r\nnocolon\r\n";
    let (id, headers) = parse(&answer(text), text.len()).unwrap();
    assert_eq!(id, 0xab);
    assert_eq!(headers.len(), 1);
}

#[test]
fn parse_only_reads_len_bytes() {
    let text = "HTTP/1.1 200 OK\r\nid: 0x2a\r\n";
    let (id, _) = parse(&answer(text), text.len()).unwrap();
    assert_eq!(id, 42);
    assert!(parse(&answer(text), 10).is_none());
}

#[test]
fn parse_rejects_invalid_utf8() {
    let mut buf = answer("HTTP/1.1 200 OK\r\nid: 0x1\r\n");
    buf[20] = 0xff;
    assert!(parse(&buf, 26).is_none());
}

#[test]
fn address_from_location() {
    let buf = answer(ANSWER);
    let (_, headers) = parse(&buf, ANSWER.len()).unwrap();
    assert_eq!(bulb_address(&headers), Some("192.168.1.239:55443".to_string()));
    let none = vec![("id".to_string(), "0x1".to_string())];
    assert_eq!(bulb_address(&none), None);
}

#[test]
fn trimming_repeated_prefixes() {
    assert_eq!(trim_start_matches("0x0x1f", "0x"), "1f");
    assert_eq!(trim_start_matches("x0x1", "0x"), "x0x1");
    assert_eq!(trim_start_matches("abc", ""), "abc");
    assert_eq!(trim_start_matches("yeelight://h:1", "yeelight://"), "h:1");
}
