//! Air-quality adapter: the particulate sensor's own driver reads and
//! validates the frame; this module maps its outcome onto local types.
use vstd::prelude::*;

verus! {

#[verifier::external_type_specification]
#[verifier::reject_recursive_types(E)]
pub struct ExPmsaError<E>(pmsa003i::Error<E>);

#[verifier::external_type_specification]
pub struct ExPmsaReading(pmsa003i::Reading);

#[derive(Debug, PartialEq)]
pub enum AirQualityError<E> {
    I2C(E),
    InvalidChecksum,
    InvalidMagic,
}

impl<E> From<pmsa003i::Error<E>> for AirQualityError<E> {
    fn from(e: pmsa003i::Error<E>) -> (r: Self)
        ensures
            r == air_quality_error_of(e),
    {
        match e {
            pmsa003i::Error::I2C(e) => AirQualityError::I2C(e),
            pmsa003i::Error::BadChecksum => AirQualityError::InvalidChecksum,
            pmsa003i::Error::BadMagic => AirQualityError::InvalidMagic,
        }
    }
}

impl<E> vstd::std_specs::convert::FromSpecImpl<pmsa003i::Error<E>> for AirQualityError<E> {
    open spec fn obeys_from_spec() -> bool {
        true
    }

    open spec fn from_spec(e: pmsa003i::Error<E>) -> Self {
        air_quality_error_of(e)
    }
}

/// The local error for an error of the sensor driver: transport failure,
/// checksum mismatch and frame-start mismatch keep their meaning.
pub open spec fn air_quality_error_of<E>(e: pmsa003i::Error<E>) -> AirQualityError<E> {
    match e {
        pmsa003i::Error::I2C(inner) => AirQualityError::I2C(inner),
        pmsa003i::Error::BadChecksum => AirQualityError::InvalidChecksum,
        pmsa003i::Error::BadMagic => AirQualityError::InvalidMagic,
    }
}

#[derive(Debug)]
pub struct AirQualityReading {
    pub pm2_5: u16,
    pub pm10: u16,
}

impl AirQualityReading {
    pub fn new(pm2_5: u16, pm10: u16) -> (r: Self)
        ensures
            r.pm2_5 == pm2_5,
            r.pm10 == pm10,
    {
        Self { pm2_5, pm10 }
    }
}

/// The outcome of one particulate read, from the driver's outcome:
/// the PM2.5 and PM10 concentrations as they are, or the mapped error.
pub fn read_result<E>(res: Result<pmsa003i::Reading, pmsa003i::Error<E>>) -> (r: Result<
    AirQualityReading,
    AirQualityError<E>,
>)
    ensures
        match res {
            Ok(data) => match r {
                Ok(reading) => reading.pm2_5 == data.pm2_5 && reading.pm10 == data.pm10,
                Err(_) => false,
            },
            Err(e) => r == Err::<AirQualityReading, AirQualityError<E>>(air_quality_error_of(e)),
        },
{
    match res {
        Ok(data) => Ok(AirQualityReading::new(data.pm2_5, data.pm10)),
        Err(e) => Err(AirQualityError::from(e)),
    }
}

} // verus!
