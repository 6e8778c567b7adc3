use embedded_hal_async::i2c::ErrorKind;
use env_sensor::air_quality::{AirQualityError, AirQualityReading};
use env_sensor::cycle::{plan_cycle, CyclePlan, Scheduler, TickAction, READ_INTERVAL_SECONDS};
use env_sensor::packet::EnvReading;
use env_sensor::sht30::{Sht30Error, Sht30Reading};

type AqResult = Result<AirQualityReading, AirQualityError<ErrorKind>>;
type ThResult = Result<Sht30Reading, Sht30Error<ErrorKind>>;

#[test]
fn both_reads_ok_transmits_encoded_reading() {
    let aq: AqResult = Ok(AirQualityReading::new(0x0102, 0x0304));
    let th: ThResult = Ok(Sht30Reading::new(0x0810, 0x0204));
    match plan_cycle(&aq, &th) {
        CyclePlan::Transmit { reading, payload } => {
            assert_eq!(reading, EnvReading::new(0x0102, 0x0304, 0x0810, 0x0204));
            assert_eq!(payload, [0x02, 0x01, 0x04, 0x03, 0x10, 0x08, 0x04, 0x02]);
        }
        CyclePlan::Skip => panic!("expected a transmission"),
    }
}

#[test]
fn air_quality_failure_skips_transmission_and_next_tick_fires() {
    let mut scheduler = Scheduler::new();
    assert_eq!(scheduler.on_tick(), TickAction::StartCycle);
    let aq: AqResult = Err(AirQualityError::InvalidChecksum);
    let th: ThResult = Ok(Sht30Reading::new(0x0810, 0x0204));
    assert!(matches!(plan_cycle(&aq, &th), CyclePlan::Skip));
    scheduler.on_cycle_finished();
    assert!(!scheduler.is_running());
    assert_eq!(scheduler.on_tick(), TickAction::StartCycle);
}

#[test]
fn temperature_failure_skips_transmission() {
    let aq: AqResult = Ok(AirQualityReading::new(1, 2));
    let th: ThResult = Err(Sht30Error::InvalidCrc);
    assert!(matches!(plan_cycle(&aq, &th), CyclePlan::Skip));
}

#[test]
fn both_failures_skip_transmission() {
    let aq: AqResult = Err(AirQualityError::I2C(ErrorKind::Other));
    let th: ThResult = Err(Sht30Error::I2C(ErrorKind::Other));
    assert!(matches!(plan_cycle(&aq, &th), CyclePlan::Skip));
}

#[test]
fn tick_during_running_cycle_is_skipped() {
    let mut scheduler = Scheduler::new();
    assert!(!scheduler.is_running());
    assert_eq!(scheduler.on_tick(), TickAction::StartCycle);
    assert!(scheduler.is_running());
    assert_eq!(scheduler.on_tick(), TickAction::SkipTick);
    assert!(scheduler.is_running());
    scheduler.on_cycle_finished();
    assert_eq!(scheduler.on_tick(), TickAction::StartCycle);
}

#[test]
fn read_interval_is_three_seconds() {
    assert_eq!(READ_INTERVAL_SECONDS, 3);
}
