//! Status LED and the heartbeat control loop.
//!
//! The heartbeat is a pure liveness signal: toggle the LED, hold for the
//! configured interval, repeat forever. The driver decides the next level
//! and the hold; the runtime around it performs the pin write and the
//! suspension, so every pass through the loop yields to the scheduler.

use crate::handles::PeripheralHandle;
use vstd::prelude::*;

verus! {

/// Driver for a status LED on one GPIO pin.
///
/// Owns its pin exclusively; tracks the commanded level.
pub struct StatusLed {
    pin: PeripheralHandle,
    lit: bool,
}

impl StatusLed {
    /// Whether the LED is commanded on.
    pub closed spec fn is_lit(&self) -> bool {
        self.lit
    }

    /// Builds the driver by taking ownership of the LED pin, starting at
    /// the given level.
    pub fn from_pin(pin: PeripheralHandle, lit: bool) -> (r: StatusLed)
        ensures
            r.is_lit() == lit,
    {
        StatusLed { pin, lit }
    }

    /// Inverts the commanded level.
    pub fn toggle(&mut self)
        ensures
            final(self).is_lit() == !old(self).is_lit(),
    {
        self.lit = !self.lit;
    }

    /// Reads the commanded level.
    pub fn level(&self) -> (r: bool)
        ensures
            r == self.is_lit(),
    {
        self.lit
    }
}

/// The heartbeat blinker: one LED and a fixed blink interval.
pub struct Heartbeat {
    led: StatusLed,
    interval_ms: u64,
}

impl Heartbeat {
    /// Whether the LED is commanded on.
    pub closed spec fn is_lit(&self) -> bool {
        self.led.is_lit()
    }

    /// The configured blink interval, in milliseconds.
    pub closed spec fn interval(&self) -> u64 {
        self.interval_ms
    }

    /// Builds the heartbeat around an LED it takes ownership of. The blink
    /// interval is fixed here, once.
    pub fn new(led: StatusLed, interval_ms: u64) -> (r: Heartbeat)
        ensures
            r.is_lit() == led.is_lit(),
            r.interval() == interval_ms,
    {
        Heartbeat { led, interval_ms }
    }

    /// Reads the commanded LED level.
    pub fn led_level(&self) -> (r: bool)
        ensures
            r == self.is_lit(),
    {
        self.led.level()
    }

    /// One pass of the heartbeat loop: toggles the LED and returns how many
    /// milliseconds the caller must now suspend before the next pass, so
    /// that the loop always yields to the scheduler.
    pub fn beat(&mut self) -> (hold_ms: u64)
        ensures
            final(self).is_lit() == !old(self).is_lit(),
            final(self).interval() == old(self).interval(),
            hold_ms == old(self).interval(),
    {
        self.led.toggle();
        self.interval_ms
    }
}

} // verus!
