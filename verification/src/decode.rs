//! Frame decoding: one text line in, one sample or a decode error out.
//!
//! The frame token is the prefix of the line up to (not including) the first
//! space; if the line has no space, the whole line is the token. The token is
//! hex-decoded into bytes, which must number at least 7; bytes 1..=6 hold the
//! three big-endian axis values.

use vstd::prelude::*;
use vstd::string::StrSliceExecFns;
use crate::sample::{SensorSample, spec_sample_of_bytes, lemma_be16_split, spec_sample_to_bytes};

verus! {

/// Why a frame failed to decode.
#[derive(Clone, Copy, Debug, PartialEq, Eq, Structural)]
pub enum DecodeError {
    /// The frame token is not a valid hexadecimal byte sequence.
    MalformedFrame,
    /// The decoded byte sequence is shorter than the 7 bytes a sample needs.
    UnderflowFrame,
}

/// Number of leading characters of `line` before its first space.
pub open spec fn spec_token_len(line: Seq<char>) -> int
    decreases line.len(),
{
    if line.len() == 0 {
        0
    } else if line[0] == ' ' {
        0
    } else {
        1 + spec_token_len(line.skip(1))
    }
}

/// The frame token: the prefix of `line` up to its first space, or the whole
/// line if it has none.
pub open spec fn spec_token(line: Seq<char>) -> Seq<char> {
    line.take(spec_token_len(line))
}

proof fn lemma_token_len_from_scan(line: Seq<char>, n: int)
    requires
        0 <= n <= line.len(),
        forall|j: int| 0 <= j < n ==> line[j] != ' ',
        n == line.len() || line[n] == ' ',
    ensures
        spec_token_len(line) == n,
    decreases n,
{
    if n == 0 {
    } else {
        assert(line[0] != ' ');
        lemma_token_len_from_scan(line.skip(1), n - 1);
    }
}

/// The frame token of `line`, as the original line splits it: everything up
/// to the first space, the whole line when there is none.
pub fn frame_token<'a>(line: &'a str) -> (token: &'a str)
    ensures
        token@ == spec_token(line@),
{
    let n: usize = line.unicode_len();
    let mut i: usize = 0;
    while i < n
        invariant
            i <= n,
            n == line@.len(),
            forall|j: int| 0 <= j < i ==> line@[j] != ' ',
        ensures
            i <= n,
            n == line@.len(),
            forall|j: int| 0 <= j < i ==> line@[j] != ' ',
            i == n || line@[i as int] == ' ',
        decreases n - i,
    {
        if line.get_char(i) == ' ' {
            break;
        }
        i += 1;
    }
    proof {
        lemma_token_len_from_scan(line@, i as int);
        assert(spec_token(line@) =~= line@.subrange(0, i as int));
    }
    line.substring_char(0, i)
}

/// Whether `c` is a hexadecimal digit, in either case.
pub open spec fn is_hex_digit(c: char) -> bool {
    ('0' <= c && c <= '9') || ('a' <= c && c <= 'f') || ('A' <= c && c <= 'F')
}

/// The value of the hexadecimal digit `c`.
pub open spec fn hex_digit_value(c: char) -> int
    recommends
        is_hex_digit(c),
{
    if '0' <= c && c <= '9' {
        c as int - '0' as int
    } else if 'a' <= c && c <= 'f' {
        c as int - 'a' as int + 10
    } else {
        c as int - 'A' as int + 10
    }
}

/// Whether `s` is a valid hexadecimal byte sequence: an even number of hex
/// digits.
pub open spec fn is_hex_token(s: Seq<char>) -> bool {
    s.len() % 2 == 0 && (forall|i: int| 0 <= i < s.len() ==> is_hex_digit(#[trigger] s[i]))
}

/// The bytes a valid hexadecimal string spells, one byte per digit pair,
/// high digit first.
pub open spec fn spec_hex_bytes(s: Seq<char>) -> Seq<u8>
    recommends
        is_hex_token(s),
{
    Seq::new((s.len() / 2) as nat, |i: int| (hex_digit_value(s[2 * i]) * 16 + hex_digit_value(s[2 * i + 1])) as u8)
}

/// Relies on hex::decode: it succeeds exactly on an even number of
/// hexadecimal digits (upper or lower case), and maps each digit pair to one
/// byte, high digit first; any other input fails.
#[verifier::external_body]
fn hex_decode(token: &str) -> (r: Option<Vec<u8>>)
    ensures
        r is Some <==> is_hex_token(token@),
        r matches Some(v) ==> v@ == spec_hex_bytes(token@),
{
    match hex::decode(token) {
        Ok(bytes) => Some(bytes),
        Err(_) => None,
    }
}

/// The sample a frame byte sequence decodes to, or the underflow error when
/// it is shorter than 7 bytes.
pub open spec fn spec_decode_bytes(b: Seq<u8>) -> Result<SensorSample, DecodeError> {
    if b.len() < 7 {
        Err(DecodeError::UnderflowFrame)
    } else {
        Ok(spec_sample_of_bytes(b))
    }
}

/// What one text line decodes to: the sample its frame token spells, a
/// malformed-frame error when the token is not valid hex, or an underflow
/// error when it holds fewer than 7 bytes.
pub open spec fn spec_decode_line(line: Seq<char>) -> Result<SensorSample, DecodeError> {
    if !is_hex_token(spec_token(line)) {
        Err(DecodeError::MalformedFrame)
    } else {
        spec_decode_bytes(spec_hex_bytes(spec_token(line)))
    }
}

/// Decode a frame byte sequence into a sample, rejecting sequences too short
/// to hold the three axis values.
pub fn decode_bytes(bytes: &Vec<u8>) -> (r: Result<SensorSample, DecodeError>)
    ensures
        r == spec_decode_bytes(bytes@),
{
    if bytes.len() < 7 {
        return Err(DecodeError::UnderflowFrame);
    }
    let x: u16 = (bytes[1] as u16) * 256 + (bytes[2] as u16);
    let y: u16 = (bytes[3] as u16) * 256 + (bytes[4] as u16);
    let z: u16 = (bytes[5] as u16) * 256 + (bytes[6] as u16);
    Ok(SensorSample { x, y, z })
}

/// Decode one text line: split off the frame token, hex-decode it, and read
/// the three axis values from the bytes.
pub fn decode_line(line: &str) -> (r: Result<SensorSample, DecodeError>)
    ensures
        r == spec_decode_line(line@),
{
    let token = frame_token(line);
    match hex_decode(token) {
        None => Err(DecodeError::MalformedFrame),
        Some(bytes) => decode_bytes(&bytes),
    }
}

/// Decoding is deterministic and total on well-formed input: a line whose
/// frame token is a valid hexadecimal string of at least 14 digits always
/// decodes to exactly the sample its bytes spell.
pub proof fn lemma_decode_line_total(line: Seq<char>)
    requires
        is_hex_token(spec_token(line)),
        spec_token(line).len() >= 14,
    ensures
        spec_decode_line(line) == Ok::<SensorSample, DecodeError>(spec_sample_of_bytes(spec_hex_bytes(spec_token(line)))),
{
}

/// Round trip: encoding a sample behind any header byte and decoding the
/// resulting frame bytes yields the original sample.
pub proof fn lemma_encode_decode_round_trip(header: u8, s: SensorSample)
    ensures
        spec_decode_bytes(spec_sample_to_bytes(header, s)) == Ok::<SensorSample, DecodeError>(s),
{
    lemma_be16_split(s.x);
    lemma_be16_split(s.y);
    lemma_be16_split(s.z);
}

} // verus!
