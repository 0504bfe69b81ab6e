use vstd::prelude::*;
use crate::fleet::readers_for;
use crate::reader::{ReaderView, SensorReader};
use crate::sensor::Sensor;

verus! {

/// The refresh period used when none is configured: 15 minutes.
pub const DEFAULT_REFRESH_SECS: i32 = 900;

/// Why service settings were refused.
#[derive(Clone, Copy, Debug, PartialEq, Eq, Structural)]
pub enum SettingsError {
    /// The refresh period must be a positive number of seconds.
    NonPositiveRefresh(i32),
}

/// The resolution of a service: the configured refresh time, or the default.
pub open spec fn resolution_of(refresh_time: Option<i32>) -> i32 {
    match refresh_time {
        Some(t) => t,
        None => DEFAULT_REFRESH_SECS,
    }
}

/// The timing of the service loop. One cycle starts every `period_secs`
/// seconds; `resolution` is the same period, echoed into every datapoint.
pub struct ServiceSettings {
    pub resolution: i32,
    pub period_secs: u64,
    pub max_attempts: Option<u64>,
}

impl ServiceSettings {
    /// Well-formed settings have a positive period that equals the resolution.
    pub open spec fn wf(&self) -> bool {
        &&& self.resolution > 0
        &&& self.period_secs == self.resolution as u64
    }

    /// The settings for an optional refresh time in seconds (default
    /// `DEFAULT_REFRESH_SECS`) and an optional bound on the polls of a sensor
    /// per cycle (`None`: retry until the sensor answers). A refresh time that
    /// is not positive is refused.
    pub fn new(refresh_time: Option<i32>, max_attempts: Option<u64>) -> (r: Result<
        ServiceSettings,
        SettingsError,
    >)
        ensures
            resolution_of(refresh_time) > 0 <==> r is Ok,
            r matches Ok(s) ==> {
                &&& s.wf()
                &&& s.resolution == resolution_of(refresh_time)
                &&& s.max_attempts == max_attempts
            },
            r matches Err(e) ==> e == SettingsError::NonPositiveRefresh(
                resolution_of(refresh_time),
            ),
    {
        let resolution = match refresh_time {
            Some(t) => t,
            None => DEFAULT_REFRESH_SECS,
        };
        if resolution > 0 {
            Ok(ServiceSettings { resolution, period_secs: resolution as u64, max_attempts })
        } else {
            Err(SettingsError::NonPositiveRefresh(resolution))
        }
    }

    /// The readers of one cycle over `sensors`, in configuration order.
    pub fn cycle_readers(&self, sensors: &Vec<Sensor>) -> (r: Vec<SensorReader>)
        ensures
            r@.len() == sensors@.len(),
            forall|i: int|
                0 <= i < sensors@.len() ==> (#[trigger] r@[i])@ == (ReaderView {
                    sensor: sensors@[i]@,
                    resolution: self.resolution,
                    max_attempts: self.max_attempts,
                    attempts: 0,
                }),
    {
        readers_for(sensors, self.resolution, self.max_attempts)
    }
}

} // verus!
