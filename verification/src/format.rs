//! Audio formats and sample normalization.
//!
//! Every representation the hardware can deliver is normalized to the
//! canonical unit stored in the queue: one signed 16-bit amplitude value in
//! interleaved channel order. Unsigned 16-bit input is re-centered around the
//! representation's midpoint; signed 16-bit input passes through unchanged.
//! (32-bit float input is scaled and clamped by the caller that owns the
//! hardware callback, since the library holds no floating point.)

use vstd::prelude::*;

verus! {

/// The sample representation a hardware stream delivers.
#[derive(Clone, Copy, Debug, PartialEq, Eq, Structural)]
pub enum SampleRepresentation {
    /// Unsigned 16-bit samples, centered at 32768.
    Unsigned16,
    /// Signed 16-bit samples, the canonical representation.
    Signed16,
    /// 32-bit floating point samples in [-1.0, 1.0].
    Float32,
}

/// A concrete capture format, immutable once negotiated for a session.
#[derive(Clone, Copy, Debug, PartialEq, Eq, Structural)]
pub struct AudioFormat {
    /// Samples per second, in Hz.
    pub sample_rate: u32,
    /// Independent channels interleaved per frame; 1 = mono, 2 = stereo.
    pub channel_count: u16,
    /// How the hardware represents each delivered sample.
    pub representation: SampleRepresentation,
}

impl AudioFormat {
    /// Whether the format interleaves two or more channels per frame.
    ///
    /// The transport reads this flag once at session creation to interpret
    /// the sample stream's interleaving.
    pub fn stereo(&self) -> (r: bool)
        ensures
            r == (self.channel_count >= 2),
    {
        self.channel_count >= 2
    }
}

/// The zero offset of the unsigned 16-bit representation.
pub const UNSIGNED_MIDPOINT: u16 = 32768;

/// What re-centering an unsigned 16-bit sample yields: the same amplitude
/// re-biased into the signed 16-bit range.
pub open spec fn spec_center_unsigned(s: u16) -> i16 {
    (s - UNSIGNED_MIDPOINT) as i16
}

/// Normalize an unsigned 16-bit sample to the canonical signed unit by
/// subtracting the representation's zero offset.
pub fn center_unsigned(s: u16) -> (r: i16)
    ensures
        r == spec_center_unsigned(s),
        r as int == s as int - UNSIGNED_MIDPOINT,
{
    ((s as i32) - (UNSIGNED_MIDPOINT as i32)) as i16
}

/// The two's-complement bit pattern of a signed 16-bit sample.
pub open spec fn sample_bits(s: i16) -> u16 {
    if s >= 0 {
        s as u16
    } else {
        (s + 0x10000) as u16
    }
}

/// The low byte of a sample's 2-byte little-endian encoding.
pub open spec fn le_low_byte(s: i16) -> u8 {
    (sample_bits(s) % 0x100) as u8
}

/// The high byte of a sample's 2-byte little-endian encoding.
pub open spec fn le_high_byte(s: i16) -> u8 {
    (sample_bits(s) / 0x100) as u8
}

/// The sample a 2-byte little-endian encoding stands for.
pub open spec fn sample_of_le_bytes(low: u8, high: u8) -> i16 {
    if low + 0x100 * high < 0x8000 {
        (low + 0x100 * high) as i16
    } else {
        (low + 0x100 * high - 0x10000) as i16
    }
}

/// Encode one sample as the unit of the byte-oriented stream the transport
/// consumes: exactly two bytes, little-endian, two's complement.
pub fn sample_to_le_bytes(s: i16) -> (r: (u8, u8))
    ensures
        r.0 == le_low_byte(s),
        r.1 == le_high_byte(s),
        sample_of_le_bytes(r.0, r.1) == s,
{
    let bits: u16 = if s >= 0 {
        s as u16
    } else {
        ((s as i32) + 0x10000) as u16
    };
    proof {
        lemma_le_bytes_round_trip(s);
    }
    ((bits % 0x100) as u8, (bits / 0x100) as u8)
}

/// Encoding a sample as two little-endian bytes and reading them back yields
/// the same sample: each unit of the byte stream carries exactly one sample.
pub proof fn lemma_le_bytes_round_trip(s: i16)
    ensures
        sample_of_le_bytes(le_low_byte(s), le_high_byte(s)) == s,
{
    let bits = sample_bits(s);
    vstd::arithmetic::div_mod::lemma_fundamental_div_mod(bits as int, 0x100);
}

} // verus!
