//! The radio payload: a reading packed into 8 bytes, fields in the order
//! [pm2_5, pm10, humidity, temperature], each little-endian.
use vstd::prelude::*;

verus! {

/// Number of bytes of one radio payload.
pub const PAYLOAD_LEN: usize = 8;

/// The combined output of one acquisition cycle.
#[derive(Clone, Copy, Debug, PartialEq, Eq)]
pub struct EnvReading {
    pub aq_pm2_5: u16,
    pub aq_pm10: u16,
    pub humidity: u16,
    pub temperature: u16,
}

impl EnvReading {
    pub fn new(aq_pm2_5: u16, aq_pm10: u16, humidity: u16, temperature: u16) -> (r: Self)
        ensures
            r == (EnvReading { aq_pm2_5, aq_pm10, humidity, temperature }),
    {
        EnvReading { aq_pm2_5, aq_pm10, humidity, temperature }
    }
}

/// The two little-endian bytes of a 16-bit value.
pub open spec fn le_bytes(x: u16) -> Seq<u8> {
    seq![(x as int % 256) as u8, (x as int / 256) as u8]
}

/// The value of two little-endian bytes.
pub open spec fn le_value(lo: u8, hi: u8) -> u16 {
    (lo as int + hi as int * 256) as u16
}

/// The payload bytes of a reading.
pub open spec fn encoding(r: EnvReading) -> Seq<u8> {
    le_bytes(r.aq_pm2_5) + le_bytes(r.aq_pm10) + le_bytes(r.humidity) + le_bytes(r.temperature)
}

/// The reading that an 8-byte payload holds.
pub open spec fn decoding(b: Seq<u8>) -> EnvReading {
    EnvReading {
        aq_pm2_5: le_value(b[0], b[1]),
        aq_pm10: le_value(b[2], b[3]),
        humidity: le_value(b[4], b[5]),
        temperature: le_value(b[6], b[7]),
    }
}

fn low_byte(x: u16) -> (r: u8)
    ensures
        r == (x as int % 256) as u8,
{
    (x % 256) as u8
}

fn high_byte(x: u16) -> (r: u8)
    ensures
        r == (x as int / 256) as u8,
{
    (x / 256) as u8
}

fn join_le(lo: u8, hi: u8) -> (r: u16)
    ensures
        r == le_value(lo, hi),
{
    (lo as u16) + (hi as u16) * 256
}

/// Packs a reading into its 8-byte radio payload.
pub fn encode(r: &EnvReading) -> (b: [u8; 8])
    ensures
        b@ == encoding(*r),
{
    let b: [u8; 8] = [
        low_byte(r.aq_pm2_5),
        high_byte(r.aq_pm2_5),
        low_byte(r.aq_pm10),
        high_byte(r.aq_pm10),
        low_byte(r.humidity),
        high_byte(r.humidity),
        low_byte(r.temperature),
        high_byte(r.temperature),
    ];
    assert(b@ =~= encoding(*r));
    b
}

/// Unpacks an 8-byte radio payload.
pub fn decode(b: &[u8; 8]) -> (r: EnvReading)
    ensures
        r == decoding(b@),
{
    EnvReading {
        aq_pm2_5: join_le(b[0], b[1]),
        aq_pm10: join_le(b[2], b[3]),
        humidity: join_le(b[4], b[5]),
        temperature: join_le(b[6], b[7]),
    }
}

proof fn lemma_le_round_trip(x: u16)
    ensures
        le_value(le_bytes(x)[0], le_bytes(x)[1]) == x,
{
}

/// Round trip: decoding the payload of any reading gives that reading back.
pub proof fn lemma_encode_decode(r: EnvReading)
    ensures
        encoding(r).len() == PAYLOAD_LEN,
        decoding(encoding(r)) == r,
{
    lemma_le_round_trip(r.aq_pm2_5);
    lemma_le_round_trip(r.aq_pm10);
    lemma_le_round_trip(r.humidity);
    lemma_le_round_trip(r.temperature);
    let e = encoding(r);
    assert(e[0] == le_bytes(r.aq_pm2_5)[0] && e[1] == le_bytes(r.aq_pm2_5)[1]);
    assert(e[2] == le_bytes(r.aq_pm10)[0] && e[3] == le_bytes(r.aq_pm10)[1]);
    assert(e[4] == le_bytes(r.humidity)[0] && e[5] == le_bytes(r.humidity)[1]);
    assert(e[6] == le_bytes(r.temperature)[0] && e[7] == le_bytes(r.temperature)[1]);
}

/// The encoding is injective: distinct readings never share a payload.
pub proof fn lemma_encoding_injective(r1: EnvReading, r2: EnvReading)
    requires
        encoding(r1) == encoding(r2),
    ensures
        r1 == r2,
{
    lemma_encode_decode(r1);
    lemma_encode_decode(r2);
}

} // verus!
