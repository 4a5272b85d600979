//! Servo driver: PWM angle control.
//!
//! The angle maps linearly onto the servo's documented minimum/maximum
//! pulse range, fixed at construction. As with the motor, writes follow the
//! permissive actuator policy: an out-of-range angle is clamped, never
//! rejected, and the write cannot fail or suspend.

use crate::handles::PeripheralHandle;
use vstd::prelude::*;

verus! {

/// Upper bound on a configurable pulse width, in microseconds: one full
/// 50 Hz PWM frame.
pub const MAX_PULSE_US: u16 = 20000;

/// An angle clamped to the servo's travel of 0..=180 degrees.
pub open spec fn clamp_angle(x: u8) -> u8 {
    if x > 180 {
        180
    } else {
        x
    }
}

/// The pulse width commanding angle `deg` on a servo whose travel spans
/// `min_us..=max_us`: a linear map from degrees to microseconds.
pub open spec fn pulse_width_us(min_us: int, max_us: int, deg: int) -> int {
    min_us + deg * (max_us - min_us) / 180
}

/// Driver for a PWM-controlled servo.
///
/// Owns its PWM timer channel exclusively; the pulse range is configured
/// once at construction and immutable thereafter.
pub struct ServoDriver {
    pwm: PeripheralHandle,
    min_pulse_us: u16,
    max_pulse_us: u16,
    angle: u8,
    pulse_us: u16,
}

impl ServoDriver {
    /// The pulse width commanding the smallest angle, in microseconds.
    pub closed spec fn min_pulse(&self) -> u16 {
        self.min_pulse_us
    }

    /// The pulse width commanding the largest angle, in microseconds.
    pub closed spec fn max_pulse(&self) -> u16 {
        self.max_pulse_us
    }

    /// The commanded angle, in degrees.
    pub closed spec fn angle(&self) -> u8 {
        self.angle
    }

    /// The commanded pulse width, in microseconds.
    pub closed spec fn pulse(&self) -> u16 {
        self.pulse_us
    }

    /// The pulse range is ordered and fits one PWM frame; the commanded
    /// angle stays within the servo's travel, and the commanded pulse is
    /// the one its angle maps to.
    pub open spec fn wf(&self) -> bool {
        &&& self.min_pulse() <= self.max_pulse()
        &&& self.max_pulse() <= MAX_PULSE_US
        &&& self.angle() <= 180
        &&& self.pulse() == pulse_width_us(
            self.min_pulse() as int,
            self.max_pulse() as int,
            self.angle() as int,
        )
    }

    /// Builds the driver by taking ownership of the PWM timer channel. The
    /// servo's documented pulse range is fixed here, once; the servo starts
    /// commanded to 0 degrees.
    pub fn from_pin(pwm: PeripheralHandle, min_pulse_us: u16, max_pulse_us: u16) -> (r: ServoDriver)
        requires
            min_pulse_us <= max_pulse_us,
            max_pulse_us <= MAX_PULSE_US,
        ensures
            r.min_pulse() == min_pulse_us,
            r.max_pulse() == max_pulse_us,
            r.angle() == 0,
            r.wf(),
    {
        ServoDriver { pwm, min_pulse_us, max_pulse_us, angle: 0, pulse_us: min_pulse_us }
    }

    /// Commands an angle: clamps it to 0..=180 degrees, maps it onto the
    /// configured pulse range and stores the resulting compare value. The
    /// commanded pulse always stays within the documented range.
    pub fn set_angle(&mut self, degrees: u8)
        requires
            old(self).wf(),
        ensures
            final(self).angle() == clamp_angle(degrees),
            final(self).pulse() == pulse_width_us(
                old(self).min_pulse() as int,
                old(self).max_pulse() as int,
                clamp_angle(degrees) as int,
            ),
            old(self).min_pulse() <= final(self).pulse() <= old(self).max_pulse(),
            final(self).min_pulse() == old(self).min_pulse(),
            final(self).max_pulse() == old(self).max_pulse(),
            final(self).wf(),
    {
        let deg: u8 = if degrees > 180 {
            180
        } else {
            degrees
        };
        let span: u32 = (self.max_pulse_us - self.min_pulse_us) as u32;
        proof {
            assert((deg as int) * (span as int) <= 180 * 20000) by (nonlinear_arith)
                requires
                    0 <= deg <= 180,
                    0 <= span <= 20000,
            ;
        }
        let offset: u32 = (deg as u32) * span / 180;
        proof {
            assert((deg as int) * (span as int) / 180 <= span as int) by (nonlinear_arith)
                requires
                    0 <= deg <= 180,
                    0 <= span,
            ;
            assert((deg as int) * (span as int) / 180 >= 0) by (nonlinear_arith)
                requires
                    0 <= deg,
                    0 <= span,
            ;
        }
        let pulse: u16 = self.min_pulse_us + (offset as u16);
        self.angle = deg;
        self.pulse_us = pulse;
    }

    /// Reads the commanded angle, in degrees.
    pub fn commanded_angle(&self) -> (r: u8)
        ensures
            r == self.angle(),
    {
        self.angle
    }

    /// Reads the commanded pulse width, in microseconds.
    pub fn commanded_pulse_us(&self) -> (r: u16)
        ensures
            r == self.pulse(),
    {
        self.pulse_us
    }
}

} // verus!
