//! Mock fan used to exercise the thermal service.
use vstd::prelude::*;

verus! {

/// `MockFan` error.
#[derive(Clone, Copy, Debug, PartialEq, Eq, Structural)]
pub struct MockFanError;

/// Mock fan: it runs at the last speed it was set to.
#[derive(Clone, Copy, Debug, PartialEq, Eq, Structural)]
pub struct MockFan {
    rpm: u16,
}

impl MockFan {
    /// The speed the fan runs at.
    pub closed spec fn speed(self) -> u16 {
        self.rpm
    }

    /// Create a new `MockFan`, standing still.
    pub fn new() -> (r: Self)
        ensures
            r.speed() == 0,
    {
        MockFan { rpm: 0 }
    }

    /// Lowest speed, in RPM.
    pub fn min_rpm(&self) -> (r: u16)
        ensures
            r == 0,
    {
        0
    }

    /// Highest speed, in RPM.
    pub fn max_rpm(&self) -> (r: u16)
        ensures
            r == 6000,
    {
        6000
    }

    /// Lowest speed at which the fan starts, in RPM.
    pub fn min_start_rpm(&self) -> (r: u16)
        ensures
            r == 1000,
    {
        1000
    }

    /// Sets the speed; the mock always succeeds and reports the speed set.
    pub fn set_speed_rpm(&mut self, rpm: u16) -> (r: Result<u16, MockFanError>)
        ensures
            r == Ok::<u16, MockFanError>(rpm),
            final(self).speed() == rpm,
    {
        self.rpm = rpm;
        Ok(rpm)
    }

    /// Reports the speed: the last speed set.
    pub fn rpm(&mut self) -> (r: Result<u16, MockFanError>)
        ensures
            r == Ok::<u16, MockFanError>(old(self).speed()),
            *final(self) == *old(self),
    {
        Ok(self.rpm)
    }
}

impl Default for MockFan {
    /// A fan standing still.
    fn default() -> (r: Self)
        ensures
            r.speed() == 0,
    {
        MockFan::new()
    }
}

} // verus!
