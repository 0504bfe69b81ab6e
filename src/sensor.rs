use vstd::prelude::*;

verus! {

/// A sensor of the fleet: a unique name and the GPIO pin it is wired to.
#[derive(Clone, Debug, PartialEq, Eq)]
pub struct Sensor {
    pub name: String,
    pub pin: u8,
}

/// The mathematical model of a sensor.
pub struct SensorView {
    pub name: Seq<char>,
    pub pin: u8,
}

impl View for Sensor {
    type V = SensorView;

    open spec fn view(&self) -> SensorView {
        SensorView { name: self.name@, pin: self.pin }
    }
}

impl Sensor {
    pub fn new(name: String, pin: u8) -> (r: Sensor)
        ensures
            r.name@ == name@,
            r.pin == pin,
    {
        Sensor { name, pin }
    }

    /// An independent copy of this sensor.
    pub fn duplicate(&self) -> (r: Sensor)
        ensures
            r@ == self@,
    {
        Sensor { name: self.name.clone(), pin: self.pin }
    }
}

} // verus!
