//! Dual H-bridge motor driver: per-channel PWM duty plus a direction mode.
//!
//! Duty and direction writes are best-effort hardware pokes: inputs outside
//! the valid range are clamped, never rejected, and no operation here can
//! fail or suspend. The self-test plan enumerates the bounded, deterministic
//! command sequence that the motor-test control loop applies step by step.

use crate::handles::PeripheralHandle;
use vstd::prelude::*;

verus! {

/// H-bridge direction mode.
#[derive(Clone, Copy, Debug, PartialEq, Eq, Structural)]
pub enum Direction {
    Forward,
    Reverse,
    Brake,
    Coast,
}

/// The commanded state of the motor driver: one duty percentage per channel
/// and the direction mode, applied atomically from the driver's view.
pub struct MotorState {
    pub left: u8,
    pub right: u8,
    pub dir: Direction,
}

impl MotorState {
    /// Duty percentages stay within 0..=100.
    pub open spec fn wf(&self) -> bool {
        self.left <= 100 && self.right <= 100
    }
}

/// A duty percentage clamped to 0..=100: actuator writes never fail on a
/// bounds issue that the hardware itself tolerates.
pub open spec fn clamp_duty(x: u8) -> u8 {
    if x > 100 {
        100
    } else {
        x
    }
}

/// Driver for a dual H-bridge (two motor channels) with PWM duty control.
///
/// Owns the four direction pins and the PWM timer channel exclusively for
/// its lifetime.
pub struct MotorDriver {
    in1: PeripheralHandle,
    in2: PeripheralHandle,
    in3: PeripheralHandle,
    in4: PeripheralHandle,
    pwm: PeripheralHandle,
    left: u8,
    right: u8,
    dir: Direction,
}

impl View for MotorDriver {
    type V = MotorState;

    closed spec fn view(&self) -> MotorState {
        MotorState { left: self.left, right: self.right, dir: self.dir }
    }
}

impl MotorDriver {
    /// Builds the driver by taking ownership of the four direction pins and
    /// the PWM timer channel. Starts coasting with both channels at rest.
    pub fn from_pins(
        in1: PeripheralHandle,
        in2: PeripheralHandle,
        in3: PeripheralHandle,
        in4: PeripheralHandle,
        pwm: PeripheralHandle,
    ) -> (r: MotorDriver)
        ensures
            r@ == (MotorState { left: 0, right: 0, dir: Direction::Coast }),
            r@.wf(),
    {
        MotorDriver { in1, in2, in3, in4, pwm, left: 0, right: 0, dir: Direction::Coast }
    }

    /// Updates the PWM compare values for both channels. Out-of-range duty
    /// inputs are clamped to 0..=100, never rejected; the stored value is
    /// always the clamped one. The direction mode is untouched.
    pub fn set_duty(&mut self, left: u8, right: u8)
        ensures
            final(self)@.left == clamp_duty(left),
            final(self)@.right == clamp_duty(right),
            final(self)@.dir == old(self)@.dir,
            final(self)@.wf(),
    {
        self.left = if left > 100 {
            100
        } else {
            left
        };
        self.right = if right > 100 {
            100
        } else {
            right
        };
    }

    /// Drives both channels forward. Idempotent; duties are untouched.
    pub fn forward(&mut self)
        ensures
            final(self)@.dir == Direction::Forward,
            final(self)@.left == old(self)@.left,
            final(self)@.right == old(self)@.right,
    {
        self.dir = Direction::Forward;
    }

    /// Drives both channels in reverse. Idempotent; duties are untouched.
    pub fn reverse(&mut self)
        ensures
            final(self)@.dir == Direction::Reverse,
            final(self)@.left == old(self)@.left,
            final(self)@.right == old(self)@.right,
    {
        self.dir = Direction::Reverse;
    }

    /// Shorts both channels to brake. Whatever the prior direction mode was,
    /// the state afterwards is `Brake`; duties are untouched.
    pub fn brake(&mut self)
        ensures
            final(self)@.dir == Direction::Brake,
            final(self)@.left == old(self)@.left,
            final(self)@.right == old(self)@.right,
    {
        self.dir = Direction::Brake;
    }

    /// Lets both channels float to coast. Idempotent; duties are untouched.
    pub fn coast(&mut self)
        ensures
            final(self)@.dir == Direction::Coast,
            final(self)@.left == old(self)@.left,
            final(self)@.right == old(self)@.right,
    {
        self.dir = Direction::Coast;
    }

    /// Reads the commanded duty of the left channel.
    pub fn duty_left(&self) -> (r: u8)
        ensures
            r == self@.left,
    {
        self.left
    }

    /// Reads the commanded duty of the right channel.
    pub fn duty_right(&self) -> (r: u8)
        ensures
            r == self@.right,
    {
        self.right
    }

    /// Reads the commanded direction mode.
    pub fn direction(&self) -> (r: Direction)
        ensures
            r == self@.dir,
    {
        self.dir
    }
}

} // verus!
