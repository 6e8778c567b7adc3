//! Temperature/humidity sensor protocol: a 2-byte measurement command
//! answered by six bytes, two big-endian fields each followed by a CRC-8.
use vstd::prelude::*;
use crc::{Crc, CRC_8_NRSC_5};

verus! {

/// Seven-bit bus address of the sensor.
pub const SHT30_ADDRESS: u8 = 0x44;

/// First byte of the single-shot measurement command
/// (low repeatability, clock stretching enabled).
pub const READ_CMD_MSB: u8 = 0x2c;

/// Second byte of the single-shot measurement command.
pub const READ_CMD_LSB: u8 = 0x10;

/// Number of response bytes of one measurement.
pub const RESPONSE_LEN: usize = 6;

/// The CRC-8/NRSC-5 checksum of a byte sequence.
pub uninterp spec fn crc8_nrsc5_of(bytes: Seq<u8>) -> u8;

#[derive(Debug, PartialEq)]
pub enum Sht30Error<E> {
    I2C(E),
    InvalidCrc,
}

#[derive(Debug)]
pub struct Sht30Reading {
    pub humidity: u16,
    pub temperature: u16,
}

impl Sht30Reading {
    pub fn new(humidity: u16, temperature: u16) -> (r: Self)
        ensures
            r.humidity == humidity,
            r.temperature == temperature,
    {
        Self { humidity, temperature }
    }
}

/// The unsigned value of a big-endian byte pair.
pub open spec fn be_u16(hi: u8, lo: u8) -> u16 {
    (hi as int * 256 + lo as int) as u16
}

/// The 2-byte field of a response that starts at `start`.
pub open spec fn field_at(data: Seq<u8>, start: int) -> Seq<u8> {
    seq![data[start], data[start + 1]]
}

/// Both fields of a 6-byte response match their trailing checksum bytes.
pub open spec fn response_crc_valid(data: Seq<u8>) -> bool {
    &&& crc8_nrsc5_of(field_at(data, 0)) == data[2]
    &&& crc8_nrsc5_of(field_at(data, 3)) == data[5]
}

/// The reading that a 6-byte response carries:
/// [temperature_hi, temperature_lo, crc, humidity_hi, humidity_lo, crc].
pub open spec fn response_reading(data: Seq<u8>) -> (u16, u16) {
    (be_u16(data[0], data[1]), be_u16(data[3], data[4]))
}

/// Relies on crc::Crc::<u8>::checksum under crc::CRC_8_NRSC_5: the checksum
/// is a function of the bytes alone.
#[verifier::external_body]
fn calculate_crc(a: &[u8; 2]) -> (r: u8)
    ensures
        r == crc8_nrsc5_of(a@),
{
    Crc::<u8>::new(&CRC_8_NRSC_5).checksum(a)
}

/// Succeeds exactly when `b` is the CRC-8/NRSC-5 of the field `a`.
pub fn check_crc<E>(a: &[u8; 2], b: u8) -> (r: Result<(), Sht30Error<E>>)
    ensures
        r is Ok <==> crc8_nrsc5_of(a@) == b,
        r is Err ==> r == Err::<(), Sht30Error<E>>(Sht30Error::InvalidCrc),
{
    if calculate_crc(a) != b {
        Err(Sht30Error::InvalidCrc)
    } else {
        Ok(())
    }
}

/// Joins a big-endian byte pair into an unsigned 16-bit value.
pub fn join_u16(data: &[u8; 2]) -> (r: u16)
    ensures
        r == be_u16(data[0], data[1]),
        r as int == data[0] as int * 256 + data[1] as int,
{
    (data[0] as u16) * 256 + (data[1] as u16)
}

/// Validates and decodes the six response bytes of one measurement.
/// The temperature field is checked first, then the humidity field.
pub fn decode_response<E>(data: &[u8; 6]) -> (r: Result<Sht30Reading, Sht30Error<E>>)
    ensures
        match r {
            Ok(reading) => {
                &&& response_crc_valid(data@)
                &&& (reading.temperature, reading.humidity) == response_reading(data@)
            },
            Err(e) => !response_crc_valid(data@) && e == Sht30Error::<E>::InvalidCrc,
        },
{
    let temperature: [u8; 2] = [data[0], data[1]];
    let temperature_crc = data[2];
    let humidity: [u8; 2] = [data[3], data[4]];
    let humidity_crc = data[5];
    assert(temperature@ =~= field_at(data@, 0));
    assert(humidity@ =~= field_at(data@, 3));
    match check_crc::<E>(&temperature, temperature_crc) {
        Err(e) => { return Err(e); },
        Ok(()) => {},
    }
    match check_crc::<E>(&humidity, humidity_crc) {
        Err(e) => { return Err(e); },
        Ok(()) => {},
    }
    let temperature = join_u16(&temperature);
    let humidity = join_u16(&humidity);
    Ok(Sht30Reading::new(humidity, temperature))
}

/// The outcome of one measurement, given the outcome of the bus transfer
/// (command write, then 6-byte read) and the bytes it left in `data`.
/// A transfer failure is reported as is, before any checksum is looked at.
pub fn read_result<E>(transfer: Result<(), E>, data: &[u8; 6]) -> (r: Result<
    Sht30Reading,
    Sht30Error<E>,
>)
    ensures
        match transfer {
            Err(e) => r == Err::<Sht30Reading, Sht30Error<E>>(Sht30Error::I2C(e)),
            Ok(()) => match r {
                Ok(reading) => {
                    &&& response_crc_valid(data@)
                    &&& (reading.temperature, reading.humidity) == response_reading(data@)
                },
                Err(e) => !response_crc_valid(data@) && e == Sht30Error::<E>::InvalidCrc,
            },
        },
{
    match transfer {
        Err(e) => Err(Sht30Error::I2C(e)),
        Ok(()) => decode_response(data),
    }
}

/// `check_crc` accepts a field against the checksum byte computed for it.
pub open spec fn crc_check_passes(field: Seq<u8>, checksum: u8) -> bool {
    crc8_nrsc5_of(field) == checksum
}

/// Checksum soundness: every 2-byte field passes the check against its own
/// computed checksum, and fails it once any single bit of that checksum
/// byte is flipped.
pub proof fn lemma_crc_check_sound(field: Seq<u8>, bit: u8)
    requires
        field.len() == 2,
        bit < 8,
    ensures
        crc_check_passes(field, crc8_nrsc5_of(field)),
        !crc_check_passes(field, crc8_nrsc5_of(field) ^ (1u8 << bit)),
{
    let c = crc8_nrsc5_of(field);
    assert(c ^ (1u8 << bit) != c) by (bit_vector)
        requires
            bit < 8,
    ;
}

} // verus!
