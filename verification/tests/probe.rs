use bedrock_bot::probe::magic_bytes;
use bedrock_bot::probe::new_ping;
use bedrock_bot::probe::parse_count;
use bedrock_bot::probe::parse_pong;
use bedrock_bot::probe::parse_status;
use bedrock_bot::probe::ping_packet;
use bedrock_bot::probe::read_reply;
use bedrock_bot::probe::PingResult;
use bedrock_bot::probe::PING_KIND;
use bedrock_bot::probe::PONG_KIND;
use bedrock_bot::probe::PROBE_TIMEOUT_SECS;
use bedrock_bot::probe::REPLY_BUFFER_LEN;

const MAGIC: [u8; 16] = [
    0x00, 0xff, 0xff, 0x00, 0xfe, 0xfe, 0xfe, 0xfe, 0xfd, 0xfd, 0xfd, 0xfd, 0x12, 0x34, 0x56, 0x78,
];

const STATUS: &str = "MCPE;MyWorld;422;1.20;3;10;123456;Bedrock level;Survival;1;19132;19133;";

fn pong(kind: u8, header: &[u8], magic: &[u8], status: &[u8]) -> Vec<u8> {
    let mut payload: Vec<u8> = vec![kind];
    payload.extend_from_slice(header);
    payload.extend_from_slice(magic);
    payload.extend_from_slice(&[(status.len() >> 8) as u8, status.len() as u8]);
    payload.extend_from_slice(status);
    payload
}

fn counts(online: u32, max: u32, at: u64) -> Option<PingResult> {
    Some(PingResult { online_players: online, max_players: max, observed_at: at })
}

#[test]
fn constants_match_the_protocol() {
    assert_eq!(PING_KIND, 0x01);
    assert_eq!(PONG_KIND, 0x1c);
    assert_eq!(PROBE_TIMEOUT_SECS, 2);
    assert_eq!(REPLY_BUFFER_LEN, 1024);
    assert_eq!(magic_bytes(), MAGIC);
}

#[test]
fn pong_with_status_string_gives_counts() {
    let payload = pong(0x1c, &[0u8; 16], &MAGIC, STATUS.as_bytes());
    assert_eq!(parse_pong(&payload, 7), counts(3, 10, 7));
}

#[test]
fn pong_without_header_but_long_enough_gives_counts() {
    let payload = pong(0x1c, &[], &MAGIC, STATUS.as_bytes());
    assert_eq!(parse_pong(&payload, 0), counts(3, 10, 0));
}

#[test]
fn magic_is_searched_not_assumed_at_an_offset() {
    let payload = pong(0x1c, &[0xaa; 40], &MAGIC, STATUS.as_bytes());
    assert_eq!(parse_pong(&payload, 1), counts(3, 10, 1));
}

#[test]
fn first_occurrence_of_the_magic_counts() {
    let mut inner: Vec<u8> = b"a;b;c;d;1;2;".to_vec();
    inner.extend_from_slice(&MAGIC);
    inner.extend_from_slice(b"xxa;b;c;d;8;9;");
    let payload = pong(0x1c, &[0u8; 16], &MAGIC, &inner);
    assert_eq!(parse_pong(&payload, 0), counts(1, 2, 0));
}

#[test]
fn pong_with_fewer_than_six_fields_fails() {
    let payload = pong(0x1c, &[0u8; 16], &MAGIC, b"MCPE;MyWorld;422;1.20;3");
    assert_eq!(parse_pong(&payload, 7), None);
    let payload = pong(0x1c, &[0u8; 16], &MAGIC, b"");
    assert_eq!(parse_pong(&payload, 7), None);
}

#[test]
fn pong_with_exactly_six_fields_is_read() {
    let payload = pong(0x1c, &[0u8; 16], &MAGIC, b"MCPE;MyWorld;422;1.20;3;10");
    assert_eq!(parse_pong(&payload, 7), counts(3, 10, 7));
}

#[test]
fn pong_without_magic_fails() {
    let mut wrong = MAGIC;
    wrong[15] = 0x79;
    let payload = pong(0x1c, &[0u8; 16], &wrong, STATUS.as_bytes());
    assert_eq!(parse_pong(&payload, 7), None);
}

#[test]
fn pong_with_wrong_leading_byte_fails() {
    let payload = pong(0x1d, &[0u8; 16], &MAGIC, STATUS.as_bytes());
    assert_eq!(parse_pong(&payload, 7), None);
    let payload = pong(0x01, &[0u8; 16], &MAGIC, STATUS.as_bytes());
    assert_eq!(parse_pong(&payload, 7), None);
}

#[test]
fn empty_and_truncated_payloads_fail() {
    assert_eq!(parse_pong(&[], 7), None);
    assert_eq!(parse_pong(&[0x1c], 7), None);
    let mut cut: Vec<u8> = vec![0x1c];
    cut.extend_from_slice(&MAGIC[..15]);
    assert_eq!(parse_pong(&cut, 7), None);
}

#[test]
fn short_pong_without_header_is_read() {
    let mut payload: Vec<u8> = vec![0x1c];
    payload.extend_from_slice(&MAGIC);
    payload.extend_from_slice(&[0x00, 0x08]);
    payload.extend_from_slice(b";;;;3;10");
    assert_eq!(payload.len(), 27);
    assert_eq!(parse_pong(&payload, 7), counts(3, 10, 7));
    let short = pong(0x1c, &[], &MAGIC, b"a;b;c;d;3;10");
    assert_eq!(short.len(), 31);
    assert_eq!(parse_pong(&short, 7), counts(3, 10, 7));
    let smallest = pong(0x1c, &[], &MAGIC, b";;;;0;0");
    assert_eq!(smallest.len(), 26);
    assert_eq!(parse_pong(&smallest, 1), counts(0, 0, 1));
}

#[test]
fn payload_that_ends_inside_the_gap_fails() {
    let mut payload: Vec<u8> = vec![0x1c];
    payload.extend_from_slice(&[0u8; 16]);
    payload.extend_from_slice(&MAGIC);
    payload.push(0);
    assert_eq!(payload.len(), 34);
    assert_eq!(parse_pong(&payload, 7), None);
    payload.push(0);
    assert_eq!(parse_pong(&payload, 7), None);
}

#[test]
fn counts_that_are_no_numbers_fail() {
    let payload = pong(0x1c, &[0u8; 16], &MAGIC, b"MCPE;MyWorld;422;1.20;three;10;");
    assert_eq!(parse_pong(&payload, 7), None);
    let payload = pong(0x1c, &[0u8; 16], &MAGIC, b"MCPE;MyWorld;422;1.20;3;;");
    assert_eq!(parse_pong(&payload, 7), None);
    let payload = pong(0x1c, &[0u8; 16], &MAGIC, b"MCPE;MyWorld;422;1.20;-3;10;");
    assert_eq!(parse_pong(&payload, 7), None);
}

#[test]
fn bytes_that_are_no_text_do_not_disturb_other_fields() {
    let payload = pong(0x1c, &[0u8; 16], &MAGIC, b"MCPE;\xff\xfe;\xe3\x81;1.20;12;40;x");
    assert_eq!(parse_pong(&payload, 9), counts(12, 40, 9));
    let payload = pong(0x1c, &[0u8; 16], &MAGIC, b"MCPE;a;b;1.20;1\xff2;40;x");
    assert_eq!(parse_pong(&payload, 9), None);
}

#[test]
fn parse_count_reads_signs_and_digits() {
    assert_eq!(parse_count(b"3"), Some(3));
    assert_eq!(parse_count(b"0"), Some(0));
    assert_eq!(parse_count(b"+7"), Some(7));
    assert_eq!(parse_count(b"007"), Some(7));
    assert_eq!(parse_count(b"-0"), Some(0));
    assert_eq!(parse_count(b"-1"), None);
    assert_eq!(parse_count(b""), None);
    assert_eq!(parse_count(b"+"), None);
    assert_eq!(parse_count(b"-"), None);
    assert_eq!(parse_count(b"12a"), None);
    assert_eq!(parse_count(b" 12"), None);
    assert_eq!(parse_count(b"1+2"), None);
    assert_eq!(parse_count(b"++2"), None);
}

#[test]
fn parse_count_stops_at_the_largest_count() {
    assert_eq!(parse_count(b"2147483647"), Some(2147483647));
    assert_eq!(parse_count(b"2147483648"), None);
    assert_eq!(parse_count(b"4294967295"), None);
    assert_eq!(parse_count(b"99999999999999999999999999"), None);
    assert_eq!(parse_count(b"00000000000000000000000042"), Some(42));
}

#[test]
fn parse_status_takes_fields_four_and_five() {
    assert_eq!(parse_status(STATUS.as_bytes()), Some((3, 10)));
    assert_eq!(parse_status(b";;;;1;2"), Some((1, 2)));
    assert_eq!(parse_status(b";;;;1;2;"), Some((1, 2)));
    assert_eq!(parse_status(b";;;;1"), None);
    assert_eq!(parse_status(b";;;;1;"), None);
    assert_eq!(parse_status(b""), None);
    assert_eq!(parse_status(b"1;2;3;4;5;6;7"), Some((5, 6)));
}

#[test]
fn ping_packet_has_the_request_layout() {
    let packet = ping_packet(0x0102030405060708, 0x1112131415161718);
    let mut expected: Vec<u8> = vec![0x01, 0x01, 0x02, 0x03, 0x04, 0x05, 0x06, 0x07, 0x08];
    expected.extend_from_slice(&MAGIC);
    expected.extend_from_slice(&[0x11, 0x12, 0x13, 0x14, 0x15, 0x16, 0x17, 0x18]);
    assert_eq!(packet, expected);
    assert_eq!(packet.len(), 33);
}

#[test]
fn ping_packet_writes_small_and_large_numbers_big_endian() {
    let packet = ping_packet(1, u64::MAX);
    assert_eq!(&packet[1..9], &[0, 0, 0, 0, 0, 0, 0, 1]);
    assert_eq!(&packet[25..33], &[0xff; 8]);
    let packet = ping_packet(1_700_000_000_000, 0);
    assert_eq!(&packet[1..9], &1_700_000_000_000u64.to_be_bytes());
    assert_eq!(&packet[25..33], &[0u8; 8]);
}

#[test]
fn new_ping_differs_in_the_client_identifier_only() {
    let packet = new_ping(0x0a0b0c0d0e0f1011);
    assert_eq!(packet.len(), 33);
    assert_eq!(packet[0], 0x01);
    assert_eq!(&packet[1..9], &[0x0a, 0x0b, 0x0c, 0x0d, 0x0e, 0x0f, 0x10, 0x11]);
    assert_eq!(&packet[9..25], &MAGIC);
}

#[test]
fn probe_without_reply_has_no_result() {
    assert_eq!(read_reply(None, 5), None);
    let payload = pong(0x1c, &[0u8; 16], &MAGIC, STATUS.as_bytes());
    assert_eq!(read_reply(Some(&payload), 5), counts(3, 10, 5));
    assert_eq!(read_reply(Some(&[0x1c, 0x00]), 5), None);
}
