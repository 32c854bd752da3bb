//! The decoded three-axis sample and its byte-level layout.
//!
//! A frame's byte sequence is read positionally: byte 0 is an unused header,
//! bytes 1..=2 are `x`, bytes 3..=4 are `y`, bytes 5..=6 are `z`, each a
//! big-endian unsigned 16-bit integer.

use vstd::prelude::*;

verus! {

/// One decoded sensor reading: three raw 16-bit axis values.
#[derive(Clone, Copy, Debug, PartialEq, Eq, Structural)]
pub struct SensorSample {
    pub x: u16,
    pub y: u16,
    pub z: u16,
}

/// The big-endian 16-bit value held by two bytes.
pub open spec fn be16(hi: u8, lo: u8) -> u16 {
    (hi as u16 * 256 + lo as u16) as u16
}

/// The high byte of a 16-bit value.
pub open spec fn hi8(v: u16) -> u8 {
    (v / 256) as u8
}

/// The low byte of a 16-bit value.
pub open spec fn lo8(v: u16) -> u8 {
    (v % 256) as u8
}

/// The sample encoded by a byte sequence of at least 7 bytes.
pub open spec fn spec_sample_of_bytes(b: Seq<u8>) -> SensorSample
    recommends
        b.len() >= 7,
{
    SensorSample { x: be16(b[1], b[2]), y: be16(b[3], b[4]), z: be16(b[5], b[6]) }
}

/// The 7-byte sequence that encodes a sample after the given header byte.
pub open spec fn spec_sample_to_bytes(header: u8, s: SensorSample) -> Seq<u8> {
    seq![header, hi8(s.x), lo8(s.x), hi8(s.y), lo8(s.y), hi8(s.z), lo8(s.z)]
}

/// Splitting a 16-bit value into its two bytes and reassembling them
/// big-endian gives the value back.
pub proof fn lemma_be16_split(v: u16)
    ensures
        be16(hi8(v), lo8(v)) == v,
{
}

impl SensorSample {
    /// Encode the sample as a frame byte sequence: the given header byte
    /// followed by the three axis values, each big-endian.
    pub fn encode(&self, header: u8) -> (r: Vec<u8>)
        ensures
            r@ == spec_sample_to_bytes(header, *self),
    {
        let mut out: Vec<u8> = Vec::new();
        out.push(header);
        out.push((self.x / 256) as u8);
        out.push((self.x % 256) as u8);
        out.push((self.y / 256) as u8);
        out.push((self.y % 256) as u8);
        out.push((self.z / 256) as u8);
        out.push((self.z % 256) as u8);
        proof {
            assert(out@ =~= spec_sample_to_bytes(header, *self));
        }
        out
    }
}

} // verus!
