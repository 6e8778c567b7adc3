//! Environmental monitoring core: sensor frame decoding, radio packet
//! encoding, the per-cycle transmission policy and the display text.
pub mod air_quality;
pub mod cycle;
pub mod display;
pub mod packet;
pub mod radio;
pub mod sht30;
