//! Millisecond timestamps reported by the device.
use vstd::prelude::*;

verus! {

/// An unsigned 32-bit millisecond counter since device power-up.
///
/// Subtraction saturates at zero. A newly received timestamp that is
/// lower than the previously observed one signals a device reboot; see
/// [`RebootDetector`].
#[derive(Debug, Clone, Copy, PartialEq, Eq, PartialOrd, Ord, Hash)]
pub struct Timestamp {
    timestamp: u32,
}

impl View for Timestamp {
    type V = u32;

    closed spec fn view(&self) -> u32 {
        self.timestamp
    }
}

impl Timestamp {
    pub fn from_millis(millis: u32) -> (r: Self)
        ensures
            r@ == millis,
    {
        Self { timestamp: millis }
    }

    /// The raw millisecond counter.
    pub fn timestamp(&self) -> (r: u32)
        ensures
            r == self@,
    {
        self.timestamp
    }

    /// The millisecond part of a minutes:seconds.millis reading.
    pub fn millis(&self) -> (r: u32)
        ensures
            r == self@ % 1000,
    {
        self.timestamp % 1000
    }

    /// The second part of a minutes:seconds.millis reading.
    pub fn seconds(&self) -> (r: u32)
        ensures
            r == (self@ / 1000) % 60,
    {
        (self.timestamp / 1000) % 60
    }

    /// The minute part of a minutes:seconds.millis reading.
    pub fn minutes(&self) -> (r: u32)
        ensures
            r == self@ / 60000,
    {
        self.timestamp / 60000
    }

    /// Subtraction that saturates at zero rather than wrapping.
    pub fn saturating_sub(self, rhs: Self) -> (r: Self)
        ensures
            r@ == if self@ >= rhs@ {
                self@ - rhs@
            } else {
                0
            },
    {
        Timestamp { timestamp: if self.timestamp >= rhs.timestamp {
            self.timestamp - rhs.timestamp
        } else {
            0
        } }
    }
}

impl Default for Timestamp {
    /// The counter's origin: the moment of power-up.
    fn default() -> (r: Self)
        ensures
            r@ == 0,
    {
        Timestamp { timestamp: 0 }
    }
}

/// Watches the stream of received timestamps for the reboot signal.
///
/// The device's counter only moves forward, so a reading below the last
/// one can only mean the device has restarted; the consumer then discards
/// its history.
pub struct RebootDetector {
    last: Timestamp,
}

impl View for RebootDetector {
    type V = u32;

    closed spec fn view(&self) -> u32 {
        self.last@
    }
}

impl RebootDetector {
    pub fn new() -> (r: Self)
        ensures
            r@ == 0,
    {
        RebootDetector { last: Timestamp::from_millis(0) }
    }

    /// Feed the next received timestamp; returns true exactly when it is
    /// lower than the last one, the reboot signal.
    pub fn observe(&mut self, t: Timestamp) -> (reboot: bool)
        ensures
            reboot == (t@ < old(self)@),
            final(self)@ == t@,
    {
        let reboot = t.timestamp() < self.last.timestamp();
        self.last = t;
        reboot
    }
}

} // verus!
