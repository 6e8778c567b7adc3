//! Static radio configuration: modulation and packet parameters are fixed
//! once at start-up and never renegotiated per transmission.
use vstd::prelude::*;
use lora_phy::mod_params::{Bandwidth, CodingRate, SpreadingFactor};

verus! {

#[verifier::external_type_specification]
pub struct ExSpreadingFactor(SpreadingFactor);

#[verifier::external_type_specification]
pub struct ExBandwidth(Bandwidth);

#[verifier::external_type_specification]
pub struct ExCodingRate(CodingRate);

/// Carrier frequency, in hertz.
pub const LORA_FREQUENCY: u32 = 915_000_000;

/// Preamble length, in symbols.
pub const PREAMBLE_LENGTH: u16 = 4;

/// Explicit header mode: the packet carries its own length.
pub const IMPLICIT_HEADER: bool = false;

/// Each packet carries a payload CRC.
pub const CRC_ON: bool = true;

/// I/Q signals are not inverted.
pub const IQ_INVERTED: bool = false;

/// Transmit power, in dBm.
pub const OUTPUT_POWER: i32 = 20;

pub const SPREADING_FACTOR: SpreadingFactor = SpreadingFactor::_10;

pub const BANDWIDTH: Bandwidth = Bandwidth::_250KHz;

pub const CODING_RATE: CodingRate = CodingRate::_4_8;

} // verus!
