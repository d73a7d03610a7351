use hudsucker::ascii::{bytes_eq, copy_bytes, eq_ignore_ascii_case};
use hudsucker::bridge::pump;
use hudsucker::headers::{contains_token, find_header, has_header, trimmed_matches};
use hudsucker::model::{Header, Message};
use hudsucker::rewind::Rewind;

fn header(name: &[u8], value: &[u8]) -> Header {
    Header { name: name.to_vec(), value: value.to_vec() }
}

#[test]
fn case_insensitive_comparison() {
    assert!(eq_ignore_ascii_case(b"HoSt", b"host"));
    assert!(eq_ignore_ascii_case(b"UPGRADE", b"upgrade"));
    assert!(!eq_ignore_ascii_case(b"host", b"host "));
    assert!(!eq_ignore_ascii_case(b"host", b"hosu"));
}

#[test]
fn exact_comparison_and_copy() {
    assert!(bytes_eq(b"GET ", b"GET "));
    assert!(!bytes_eq(b"GET ", b"get "));
    let v = b"abc".to_vec();
    assert_eq!(copy_bytes(&v), v);
}

#[test]
fn token_lists_match_up_to_case_and_whitespace() {
    assert!(contains_token(b"Upgrade", b"upgrade"));
    assert!(contains_token(b"keep-alive, Upgrade", b"upgrade"));
    assert!(contains_token(b" keep-alive ,  UPGRADE ", b"upgrade"));
    assert!(!contains_token(b"keep-alive", b"upgrade"));
    assert!(!contains_token(b"upgraded", b"upgrade"));
    assert!(trimmed_matches(b"  13 ", b"13"));
    assert!(!trimmed_matches(b"1 3", b"13"));
}

#[test]
fn header_lookup_finds_the_first_match() {
    let headers = vec![
        header(b"Accept", b"*/*"),
        header(b"HOST", b"first"),
        header(b"Host", b"second"),
    ];
    assert_eq!(find_header(&headers, b"host"), Some(&b"first".to_vec()));
    assert_eq!(find_header(&headers, b"cookie"), None);
    assert!(has_header(&headers, b"accept"));
    assert!(!has_header(&headers, b"cookie"));
}

#[test]
fn rewind_replays_the_sniffed_bytes_in_order() {
    let mut rw = Rewind::new_buffered(b"GET ".to_vec());
    assert!(!rw.is_drained());
    let first = rw.read_buffered(2);
    assert_eq!(first, b"GE".to_vec());
    let rest = rw.read_buffered(16);
    assert_eq!(rest, b"T ".to_vec());
    assert!(rw.is_drained());
    assert_eq!(rw.read_buffered(8), Vec::<u8>::new());
}

#[test]
fn rewind_hands_back_exactly_what_was_buffered() {
    let mut rw = Rewind::new_buffered(vec![1, 2, 3, 4, 5]);
    let mut all = Vec::new();
    for cap in [1usize, 0, 3, 7] {
        all.extend(rw.read_buffered(cap));
    }
    assert_eq!(all, vec![1, 2, 3, 4, 5]);
    assert!(rw.is_drained());
}

#[test]
fn dropped_frames_never_reach_the_sink() {
    let verdicts = vec![
        Some(Message::Text(b"a".to_vec())),
        None,
        Some(Message::Text(b"b".to_vec())),
    ];
    let sent = pump(verdicts);
    assert_eq!(sent, vec![Message::Text(b"a".to_vec()), Message::Text(b"b".to_vec())]);
}

#[test]
fn forwarding_keeps_frame_order_within_a_direction() {
    let verdicts = vec![
        Some(Message::Text(b"1".to_vec())),
        Some(Message::Binary(b"2".to_vec())),
        Some(Message::Ping(b"3".to_vec())),
        Some(Message::Pong(b"4".to_vec())),
        Some(Message::Close),
    ];
    let sent = pump(verdicts);
    assert_eq!(
        sent,
        vec![
            Message::Text(b"1".to_vec()),
            Message::Binary(b"2".to_vec()),
            Message::Ping(b"3".to_vec()),
            Message::Pong(b"4".to_vec()),
            Message::Close,
        ]
    );
}

#[test]
fn directions_are_filtered_independently() {
    let outgoing = vec![
        Some(Message::Text(b"a".to_vec())),
        None,
        Some(Message::Text(b"b".to_vec())),
    ];
    let incoming = vec![Some(Message::Text(b"pong".to_vec()))];
    let client_to_server = pump(outgoing);
    let server_to_client = pump(incoming);
    assert_eq!(
        client_to_server,
        vec![Message::Text(b"a".to_vec()), Message::Text(b"b".to_vec())]
    );
    assert_eq!(server_to_client, vec![Message::Text(b"pong".to_vec())]);
}

#[test]
fn websocket_ping_pong_scenario() {
    let from_client = vec![Some(Message::Text(b"ping".to_vec()))];
    assert_eq!(pump(from_client), vec![Message::Text(b"ping".to_vec())]);
    let from_origin = vec![Some(Message::Text(b"pong".to_vec()))];
    assert_eq!(pump(from_origin), vec![Message::Text(b"pong".to_vec())]);
}

#[test]
fn websocket_filter_scenario() {
    let keep = |payload: &[u8]| {
        if payload == b"drop" {
            None
        } else {
            Some(Message::Text(payload.to_vec()))
        }
    };
    let verdicts = vec![keep(b"a"), keep(b"drop"), keep(b"b")];
    let sent = pump(verdicts);
    assert_eq!(sent, vec![Message::Text(b"a".to_vec()), Message::Text(b"b".to_vec())]);
}
