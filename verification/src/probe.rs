//! The discovery ping that asks a Bedrock server for its player counts.
//!
//! A probe is one datagram out and one datagram back. This module builds the
//! request and reads the reply; the caller owns the socket and the deadline
//! and hands over the bytes it received.
use vstd::prelude::*;
use vstd::slice::slice_subrange;

use byteorder::BigEndian;
use byteorder::ByteOrder;

use crate::search::find;
use crate::search::first_occurrence;

verus! {

/// Kind byte of a ping request.
pub const PING_KIND: u8 = 0x01;

/// Kind byte of a pong reply.
pub const PONG_KIND: u8 = 0x1c;

/// Bytes between the end of the magic and the start of the status string.
pub const STATUS_GAP: usize = 2;

/// Separator of the fields of a status string: a semicolon.
pub const FIELD_SEPARATOR: u8 = 0x3b;

/// Seconds that a probe may take from sending to receiving.
pub const PROBE_TIMEOUT_SECS: u64 = 2;

/// Bytes of a reply that are read; what a longer datagram holds beyond is lost.
pub const REPLY_BUFFER_LEN: usize = 1024;

/// The sixteen bytes that mark a packet of the discovery protocol.
pub open spec fn magic() -> Seq<u8> {
    seq![
        0x00u8, 0xffu8, 0xffu8, 0x00u8, 0xfeu8, 0xfeu8, 0xfeu8, 0xfeu8,
        0xfdu8, 0xfdu8, 0xfdu8, 0xfdu8, 0x12u8, 0x34u8, 0x56u8, 0x78u8,
    ]
}

/// The magic as bytes.
pub fn magic_bytes() -> (r: [u8; 16])
    ensures
        r@ == magic(),
{
    let r: [u8; 16] = [
        0x00, 0xff, 0xff, 0x00, 0xfe, 0xfe, 0xfe, 0xfe,
        0xfd, 0xfd, 0xfd, 0xfd, 0x12, 0x34, 0x56, 0x78,
    ];
    assert(r@ =~= magic());
    r
}

/// The eight bytes of `v`, most significant first.
pub open spec fn be_bytes(v: u64) -> Seq<u8> {
    seq![
        (v / 0x100_0000_0000_0000) as u8,
        (v / 0x1_0000_0000_0000 % 0x100) as u8,
        (v / 0x100_0000_0000 % 0x100) as u8,
        (v / 0x1_0000_0000 % 0x100) as u8,
        (v / 0x100_0000 % 0x100) as u8,
        (v / 0x1_0000 % 0x100) as u8,
        (v / 0x100 % 0x100) as u8,
        (v % 0x100) as u8,
    ]
}

/// `byteorder::BigEndian::write_u64` on a buffer of eight bytes: the buffer
/// then holds `v` in network byte order. The buffer is as long as the
/// function asks, so it does not panic.
#[verifier::external_body]
fn be_u64(v: u64) -> (r: [u8; 8])
    ensures
        r@ == be_bytes(v),
{
    let mut out = [0u8; 8];
    BigEndian::write_u64(&mut out, v);
    out
}

/// `rand::random`: a client identifier from the thread's generator. Nothing
/// is known of the value.
#[verifier::external_body]
fn random_client_id() -> u64 {
    rand::random()
}

/// The ping request: kind byte, send time in milliseconds since the epoch,
/// magic, client identifier; both integers big-endian.
pub open spec fn ping_request(time_ms: u64, client_id: u64) -> Seq<u8> {
    seq![PING_KIND] + be_bytes(time_ms) + magic() + be_bytes(client_id)
}

fn push_all(out: &mut Vec<u8>, bytes: &[u8])
    ensures
        final(out)@ == old(out)@ + bytes@,
{
    let mut i: usize = 0;
    while i < bytes.len()
        invariant
            i <= bytes@.len(),
            out@ == old(out)@ + bytes@.take(i as int),
        decreases bytes@.len() - i,
    {
        out.push(bytes[i]);
        assert(out@ =~= old(out)@ + bytes@.take(i + 1));
        i += 1;
    }
    assert(bytes@.take(i as int) =~= bytes@);
}

/// Builds the ping request for a send time and a client identifier.
pub fn ping_packet(time_ms: u64, client_id: u64) -> (r: Vec<u8>)
    ensures
        r@ == ping_request(time_ms, client_id),
        r@.len() == 33,
{
    let mut packet: Vec<u8> = Vec::with_capacity(33);
    packet.push(PING_KIND);
    assert(packet@ =~= seq![PING_KIND]);
    let time = be_u64(time_ms);
    push_all(&mut packet, time.as_slice());
    let magic = magic_bytes();
    push_all(&mut packet, magic.as_slice());
    let id = be_u64(client_id);
    push_all(&mut packet, id.as_slice());
    packet
}

/// Builds a ping request for a send time, with a fresh random client
/// identifier.
pub fn new_ping(time_ms: u64) -> (r: Vec<u8>)
    ensures
        exists|client_id: u64| r@ == ping_request(time_ms, client_id),
{
    let client_id: u64 = random_client_id();
    ping_packet(time_ms, client_id)
}

/// What a server reported in its pong, and when the probe was sent
/// (milliseconds since the epoch).
#[derive(Clone, Copy, Debug, PartialEq, Eq, Structural)]
pub struct PingResult {
    pub online_players: u32,
    pub max_players: u32,
    pub observed_at: u64,
}

/// Largest player count that is read from a status string.
pub const MAX_COUNT: u32 = 0x7fff_ffff;

/// The fields of `s`: the runs between its separators, in order. A sequence
/// without a separator is one field; a separator at the end is followed by
/// an empty field.
pub open spec fn split(s: Seq<u8>, sep: u8) -> Seq<Seq<u8>>
    decreases s.len(),
{
    match first_occurrence(s, seq![sep]) {
        Some(at) => if 0 <= at < s.len() {
            seq![s.take(at)] + split(s.skip(at + 1), sep)
        } else {
            seq![s]
        },
        None => seq![s],
    }
}

/// Whether `b` is an ASCII digit.
pub open spec fn is_digit(b: u8) -> bool {
    0x30 <= b <= 0x39
}

/// Whether `s` is made of ASCII digits.
pub open spec fn all_digits(s: Seq<u8>) -> bool {
    forall|i: int| 0 <= i < s.len() ==> is_digit(#[trigger] s[i])
}

/// The number that the ASCII digits `s` write in base ten.
pub open spec fn digits_value(s: Seq<u8>) -> nat
    decreases s.len(),
{
    if s.len() == 0 {
        0
    } else {
        digits_value(s.drop_last()) * 10 + (s.last() - 0x30) as nat
    }
}

/// Whether `s` starts with a plus or minus sign.
pub open spec fn has_sign(s: Seq<u8>) -> bool {
    s.len() > 0 && (s[0] == 0x2b || s[0] == 0x2d)
}

/// The player count that a field writes: an optional sign and at least one
/// digit, nothing else. The number must not be negative nor exceed
/// [`MAX_COUNT`]; a field that writes anything else holds no count.
pub open spec fn count_field(s: Seq<u8>) -> Option<u32> {
    let digits = if has_sign(s) {
        s.drop_first()
    } else {
        s
    };
    let negative = has_sign(s) && s[0] == 0x2d;
    if digits.len() > 0 && all_digits(digits) && digits_value(digits) <= MAX_COUNT && (negative
        ==> digits_value(digits) == 0) {
        Some(digits_value(digits) as u32)
    } else {
        None
    }
}

/// The status string of a pong: the bytes that follow the first occurrence
/// of the magic and a gap of two bytes. What stands between the kind byte
/// and the magic is not looked at. A payload has no status string if it is
/// empty, does not start with the pong kind, does not hold the magic, or
/// ends inside the gap.
pub open spec fn pong_status(payload: Seq<u8>) -> Option<Seq<u8>> {
    if payload.len() > 0 && payload[0] == PONG_KIND {
        match first_occurrence(payload, magic()) {
            Some(at) => if 0 <= at && at + 16 + STATUS_GAP <= payload.len() {
                Some(payload.skip(at + 16 + STATUS_GAP))
            } else {
                None
            },
            None => None,
        }
    } else {
        None
    }
}

/// The player counts of a status string, online first: its fields number
/// four and five, where it has at least six fields and both write a count.
pub open spec fn status_counts(status: Seq<u8>) -> Option<(u32, u32)> {
    let fields = split(status, FIELD_SEPARATOR);
    if fields.len() >= 6 {
        match (count_field(fields[4]), count_field(fields[5])) {
            (Some(online), Some(max)) => Some((online, max)),
            _ => None,
        }
    } else {
        None
    }
}

/// What a pong payload reports, if it is well formed.
pub open spec fn pong_result(payload: Seq<u8>, observed_at: u64) -> Option<PingResult> {
    match pong_status(payload) {
        Some(status) => match status_counts(status) {
            Some((online, max)) => Some(
                PingResult { online_players: online, max_players: max, observed_at },
            ),
            None => None,
        },
        None => None,
    }
}

proof fn lemma_digits_prefix(s: Seq<u8>, n: int)
    requires
        0 <= n <= s.len(),
    ensures
        digits_value(s.take(n)) <= digits_value(s),
    decreases s.len(),
{
    if n == s.len() {
        assert(s.take(n) =~= s);
    } else {
        assert(s.drop_last().take(n) =~= s.take(n));
        lemma_digits_prefix(s.drop_last(), n);
    }
}

/// Reads the player count that a field writes.
pub fn parse_count(field: &[u8]) -> (r: Option<u32>)
    ensures
        r == count_field(field@),
{
    let len: usize = field.len();
    let mut negative = false;
    let mut start: usize = 0;
    if len > 0 && (field[0] == 0x2b || field[0] == 0x2d) {
        negative = field[0] == 0x2d;
        start = 1;
    }
    let ghost digits = if has_sign(field@) {
        field@.drop_first()
    } else {
        field@
    };
    assert(digits =~= field@.skip(start as int));
    if start == len {
        return None;
    }
    let mut value: u32 = 0;
    let mut i: usize = start;
    while i < len
        invariant
            start <= i <= len,
            len == field@.len(),
            digits == field@.skip(start as int),
            digits == if has_sign(field@) {
                field@.drop_first()
            } else {
                field@
            },
            negative == (has_sign(field@) && field@[0] == 0x2d),
            all_digits(digits.take(i - start)),
            value == digits_value(digits.take(i - start)),
            value <= MAX_COUNT,
        decreases len - i,
    {
        let b: u8 = field[i];
        assert(digits[i - start] == b);
        if b < 0x30 || b > 0x39 {
            assert(!is_digit(digits[i - start]));
            return None;
        }
        let next: u64 = value as u64 * 10 + (b - 0x30) as u64;
        proof {
            let longer = digits.take(i - start + 1);
            assert(longer.drop_last() =~= digits.take(i - start));
            assert(longer.last() == b);
            assert(digits_value(longer) == next);
            assert(all_digits(longer)) by {
                assert forall|k: int| 0 <= k < longer.len() implies is_digit(#[trigger] longer[k]) by {
                    if k < i - start {
                        assert(digits.take(i - start)[k] == longer[k]);
                    }
                }
            }
            if next > MAX_COUNT {
                lemma_digits_prefix(digits, i - start + 1);
            }
        }
        if next > MAX_COUNT as u64 {
            return None;
        }
        value = next as u32;
        i += 1;
    }
    assert(digits.take(i - start) =~= digits);
    if negative && value != 0 {
        None
    } else {
        Some(value)
    }
}

/// Finds the separator that ends the field starting at `from`.
fn next_separator(s: &[u8], from: usize) -> (r: Option<usize>)
    requires
        from <= s@.len(),
    ensures
        match r {
            Some(end) => from <= end < s@.len() && first_occurrence(
                s@.skip(from as int),
                seq![FIELD_SEPARATOR],
            ) == Some(end - from),
            None => first_occurrence(s@.skip(from as int), seq![FIELD_SEPARATOR]) is None,
        },
{
    let rest = slice_subrange(s, from, s.len());
    let needle: [u8; 1] = [FIELD_SEPARATOR];
    assert(rest@ =~= s@.skip(from as int));
    assert(needle@ =~= seq![FIELD_SEPARATOR]);
    match find(rest, needle.as_slice()) {
        Some(at) => Some(from + at),
        None => None,
    }
}

/// Reads the player counts out of a status string.
pub fn parse_status(status: &[u8]) -> (r: Option<(u32, u32)>)
    ensures
        r == status_counts(status@),
{
    let len: usize = status.len();
    let mut from: usize = 0;
    let mut k: usize = 0;
    let ghost mut done: Seq<Seq<u8>> = Seq::empty();
    assert(status@.skip(0) =~= status@);
    assert(done + split(status@, FIELD_SEPARATOR) =~= split(status@, FIELD_SEPARATOR));
    while k < 4
        invariant
            k <= 4,
            from <= len,
            len == status@.len(),
            done.len() == k,
            split(status@, FIELD_SEPARATOR) == done + split(
                status@.skip(from as int),
                FIELD_SEPARATOR,
            ),
        decreases 4 - k,
    {
        match next_separator(status, from) {
            None => {
                return None;
            },
            Some(end) => {
                proof {
                    let rest = status@.skip(from as int);
                    assert(rest.skip(end - from + 1) =~= status@.skip(end + 1));
                    done = done.push(rest.take(end - from));
                    assert(done + split(status@.skip(end + 1), FIELD_SEPARATOR) =~= split(
                        status@,
                        FIELD_SEPARATOR,
                    ));
                }
                from = end + 1;
                k += 1;
            },
        }
    }
    let end4: usize = match next_separator(status, from) {
        None => {
            return None;
        },
        Some(end) => end,
    };
    let start5: usize = end4 + 1;
    let end5: usize = match next_separator(status, start5) {
        None => len,
        Some(end) => end,
    };
    proof {
        let fields = split(status@, FIELD_SEPARATOR);
        let rest4 = status@.skip(from as int);
        let rest5 = status@.skip(start5 as int);
        assert(rest4.skip(end4 - from + 1) =~= rest5);
        assert(rest4.take(end4 - from) =~= status@.subrange(from as int, end4 as int));
        assert(rest5.take(end5 - start5) =~= status@.subrange(start5 as int, end5 as int));
        assert(split(rest5, FIELD_SEPARATOR)[0] == status@.subrange(start5 as int, end5 as int));
        assert(split(rest4, FIELD_SEPARATOR) == seq![rest4.take(end4 - from)] + split(
            rest5,
            FIELD_SEPARATOR,
        ));
        assert(fields.len() >= 6);
        assert(fields[4] == status@.subrange(from as int, end4 as int));
        assert(fields[5] == status@.subrange(start5 as int, end5 as int));
    }
    let online = parse_count(slice_subrange(status, from, end4));
    let max = parse_count(slice_subrange(status, start5, end5));
    match (online, max) {
        (Some(online), Some(max)) => Some((online, max)),
        _ => None,
    }
}

/// Reads a pong payload. `observed_at` is the time at which the probe was
/// sent, in milliseconds since the epoch; it is recorded in the result.
///
/// The status string is split at the byte `;` and its counts are read as
/// ASCII digits, which is what a lossy UTF-8 decoding of the string
/// followed by a split at the character `;` and a parse of the two fields
/// comes to: the decoding keeps every ASCII byte and turns no other byte
/// into a digit, a sign or a semicolon.
pub fn parse_pong(payload: &[u8], observed_at: u64) -> (r: Option<PingResult>)
    ensures
        r == pong_result(payload@, observed_at),
{
    let len: usize = payload.len();
    if len == 0 || payload[0] != PONG_KIND {
        return None;
    }
    let magic = magic_bytes();
    match find(payload, magic.as_slice()) {
        None => None,
        Some(at) => {
            if len - at < 16 + STATUS_GAP {
                return None;
            }
            let status = slice_subrange(payload, at + 16 + STATUS_GAP, len);
            assert(status@ =~= payload@.skip(at + 16 + STATUS_GAP));
            match parse_status(status) {
                Some((online, max)) => Some(
                    PingResult { online_players: online, max_players: max, observed_at },
                ),
                None => None,
            }
        },
    }
}

/// The outcome of a probe. `reply` is the datagram that came back within
/// the timeout; it is absent where none came or the socket failed. A probe
/// without a reply, like one with a malformed reply, has no result.
pub fn read_reply(reply: Option<&[u8]>, observed_at: u64) -> (r: Option<PingResult>)
    ensures
        r == match reply {
            Some(payload) => pong_result(payload@, observed_at),
            None => None,
        },
{
    match reply {
        Some(payload) => parse_pong(payload, observed_at),
        None => None,
    }
}

} // verus!
