use vstd::prelude::*;
use vstd::string::*;
use crate::sensor::Sensor;

verus! {

/// One successful sensor reading, in tenths of a unit, as the DHT22 reports it:
/// tenths of a degree Celsius and tenths of a percent of relative humidity.
#[derive(Clone, Copy, Debug, PartialEq, Eq, Structural)]
pub struct Reading {
    pub temperature_tenths: i32,
    pub humidity_tenths: i32,
}

/// A named, timestamped metric value for the time-series store.
///
/// `interval` is the sampling resolution in seconds, `value_tenths` the
/// measured value in tenths, `time` the sampling instant in unix seconds.
#[derive(Clone, Debug, PartialEq, Eq)]
pub struct Datapoint {
    pub name: String,
    pub interval: i32,
    pub value_tenths: i32,
    pub time: i64,
}

/// The mathematical model of a datapoint.
pub struct DatapointView {
    pub name: Seq<char>,
    pub interval: i32,
    pub value_tenths: i32,
    pub time: i64,
}

impl View for Datapoint {
    type V = DatapointView;

    open spec fn view(&self) -> DatapointView {
        DatapointView {
            name: self.name@,
            interval: self.interval,
            value_tenths: self.value_tenths,
            time: self.time,
        }
    }
}

/// The models of a sequence of datapoints.
pub open spec fn points_view(s: Seq<Datapoint>) -> Seq<DatapointView> {
    s.map_values(|d: Datapoint| d@)
}

/// The name of the metric `label` of a sensor: `<sensor>.<label>`.
pub open spec fn metric_name(sensor: Seq<char>, label: Seq<char>) -> Seq<char> {
    sensor + "."@ + label
}

/// The datapoint of one metric of a sensor.
pub open spec fn point_of(
    sensor: Seq<char>,
    label: Seq<char>,
    value_tenths: i32,
    timestamp: u64,
    resolution: i32,
) -> DatapointView {
    DatapointView {
        name: metric_name(sensor, label),
        interval: resolution,
        value_tenths,
        time: timestamp as i64,
    }
}

/// The two datapoints of a reading: temperature first, then humidity.
pub open spec fn reading_points(
    sensor: Seq<char>,
    reading: Reading,
    timestamp: u64,
    resolution: i32,
) -> Seq<DatapointView> {
    seq![
        point_of(sensor, "temperature"@, reading.temperature_tenths, timestamp, resolution),
        point_of(sensor, "humidity"@, reading.humidity_tenths, timestamp, resolution),
    ]
}

impl Datapoint {
    /// The datapoint of metric `label` of `sensor`, sampled at `timestamp`.
    pub fn new(value_tenths: i32, label: &str, sensor: &Sensor, timestamp: u64, resolution: i32) -> (r:
        Datapoint)
        requires
            timestamp <= i64::MAX,
        ensures
            r@ == point_of(sensor.name@, label@, value_tenths, timestamp, resolution),
    {
        let name = sensor.name.clone().concat(".").concat(label);
        Datapoint { name, interval: resolution, value_tenths, time: timestamp as i64 }
    }
}

/// The two datapoints of a successful reading of `sensor`.
pub fn reading_datapoints(reading: &Reading, sensor: &Sensor, timestamp: u64, resolution: i32) -> (r:
    Vec<Datapoint>)
    requires
        timestamp <= i64::MAX,
    ensures
        points_view(r@) == reading_points(sensor.name@, *reading, timestamp, resolution),
{
    let temperature = Datapoint::new(
        reading.temperature_tenths,
        "temperature",
        sensor,
        timestamp,
        resolution,
    );
    let humidity = Datapoint::new(reading.humidity_tenths, "humidity", sensor, timestamp, resolution);
    let r = vec![temperature, humidity];
    assert(points_view(r@) =~= reading_points(sensor.name@, *reading, timestamp, resolution));
    r
}

} // verus!
