//! Acquisition-cycle policy: the two sensor outcomes of one cycle decide
//! whether a reading is published and transmitted, and ticks of the
//! periodic timer start at most one cycle at a time.
use vstd::prelude::*;
use crate::air_quality::{AirQualityError, AirQualityReading};
use crate::packet::{encode, encoding, EnvReading};
use crate::sht30::{Sht30Error, Sht30Reading};

verus! {

/// Seconds between two ticks of the acquisition timer.
pub const READ_INTERVAL_SECONDS: u64 = 3;

/// What a finished pair of sensor reads asks for.
pub enum CyclePlan {
    /// Publish `reading` as the latest one and transmit `payload`.
    Transmit { reading: EnvReading, payload: [u8; 8] },
    /// At least one read failed: nothing is published or transmitted.
    Skip,
}

/// The reading built from two successful sensor reads.
pub open spec fn combined(aq: AirQualityReading, th: Sht30Reading) -> EnvReading {
    EnvReading {
        aq_pm2_5: aq.pm2_5,
        aq_pm10: aq.pm10,
        humidity: th.humidity,
        temperature: th.temperature,
    }
}

/// The plan that two sensor outcomes call for: all or nothing.
pub open spec fn plan_of<A, T>(
    aq: Result<AirQualityReading, AirQualityError<A>>,
    th: Result<Sht30Reading, Sht30Error<T>>,
) -> Option<EnvReading> {
    match (aq, th) {
        (Ok(a), Ok(t)) => Some(combined(a, t)),
        _ => None,
    }
}

/// Joins the outcomes of the particulate read and the temperature/humidity
/// read of one cycle. Only when both succeeded is a reading built and its
/// payload encoded; any failure voids the whole cycle.
pub fn plan_cycle<A, T>(
    aq: &Result<AirQualityReading, AirQualityError<A>>,
    th: &Result<Sht30Reading, Sht30Error<T>>,
) -> (p: CyclePlan)
    ensures
        match plan_of(*aq, *th) {
            Some(expected) => p == (CyclePlan::Transmit {
                reading: expected,
                payload: p->payload,
            }) && p->payload@ == encoding(expected),
            None => p is Skip,
        },
        (aq is Err || th is Err) ==> p is Skip,
{
    match (aq, th) {
        (Ok(a), Ok(t)) => {
            let reading = EnvReading::new(a.pm2_5, a.pm10, t.humidity, t.temperature);
            let payload = encode(&reading);
            CyclePlan::Transmit { reading, payload }
        },
        _ => CyclePlan::Skip,
    }
}

/// What a tick of the acquisition timer asks for.
#[derive(Debug, PartialEq, Eq)]
pub enum TickAction {
    StartCycle,
    /// The previous cycle is still running; this tick is let go.
    SkipTick,
}

/// Keeps at most one acquisition cycle in flight.
pub struct Scheduler {
    in_flight: bool,
}

impl Scheduler {
    /// Whether a cycle has been started and has not yet finished.
    pub closed spec fn running(&self) -> bool {
        self.in_flight
    }

    pub fn new() -> (s: Self)
        ensures
            !s.running(),
    {
        Scheduler { in_flight: false }
    }

    /// A cycle is started on a tick exactly when none is running.
    pub fn on_tick(&mut self) -> (a: TickAction)
        ensures
            a == (if old(self).running() {
                TickAction::SkipTick
            } else {
                TickAction::StartCycle
            }),
            final(self).running(),
    {
        if self.in_flight {
            TickAction::SkipTick
        } else {
            self.in_flight = true;
            TickAction::StartCycle
        }
    }

    /// The running cycle has finished, whatever its outcome.
    pub fn on_cycle_finished(&mut self)
        ensures
            !final(self).running(),
    {
        self.in_flight = false;
    }

    pub fn is_running(&self) -> (r: bool)
        ensures
            r == self.running(),
    {
        self.in_flight
    }
}

} // verus!
