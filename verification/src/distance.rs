//! Ultrasonic distance sensor: trigger/echo ranging with a bounded wait.
//!
//! One measurement walks the states idle, triggered, listening, resolved.
//! The driver decides what to do at each step; the runtime around it emits
//! the trigger pulse and times the echo edge with the budget the driver
//! hands out, so no measurement can suspend past the configured timeout.
//! A missing echo is a normal outcome, reported as a distinct value, never
//! as an error.

use crate::handles::PeripheralHandle;
use vstd::prelude::*;

verus! {

/// Upper bound on the configurable echo timeout, in microseconds. Keeps the
/// round-trip arithmetic far away from the integer limits.
pub const MAX_ECHO_TIMEOUT_US: u64 = 1000000000;

/// Width of the trigger pulse the sensor expects, in microseconds.
pub const TRIGGER_PULSE_US: u64 = 10;

/// Where the sensor stands within one measurement.
#[derive(Clone, Copy, Debug, PartialEq, Eq, Structural)]
pub enum SensorPhase {
    /// Awaiting a new measurement request.
    Idle,
    /// The trigger pulse is being emitted.
    Triggered,
    /// Awaiting the echo edge, within the timeout budget.
    Listening,
}

/// The outcome of one measurement: a distance, or the no-echo value when
/// nothing came back within the timeout window.
#[derive(Clone, Copy, Debug, PartialEq, Eq, Structural)]
pub enum RangeSample {
    /// Measured distance, in centimetres.
    Distance(u64),
    /// No echo was observed within the configured timeout.
    NoEcho,
}

/// The distance in centimetres for an echo that stayed high `us`
/// microseconds: half the round trip at the speed of sound (343 m/s, which
/// is 34300 cm/s, so `us * 34300 / 1000000 / 2` centimetres).
pub open spec fn distance_cm_of_echo(us: int) -> int {
    us * 343 / 20000
}

/// Driver for a trigger/echo ultrasonic ranging sensor.
///
/// Owns the trigger and echo pins exclusively; keeps no measurement
/// history.
pub struct DistanceSensor {
    trigger: PeripheralHandle,
    echo: PeripheralHandle,
    timeout_us: u64,
    phase: SensorPhase,
}

impl DistanceSensor {
    /// The configured echo timeout, in microseconds.
    pub closed spec fn timeout(&self) -> u64 {
        self.timeout_us
    }

    /// Where the sensor stands within the current measurement.
    pub closed spec fn phase(&self) -> SensorPhase {
        self.phase
    }

    /// The configured timeout never exceeds the supported maximum.
    pub open spec fn wf(&self) -> bool {
        self.timeout() <= MAX_ECHO_TIMEOUT_US
    }

    /// Builds the driver by taking ownership of the trigger and echo pins.
    /// The echo timeout is fixed here, once, for the driver's lifetime.
    pub fn from_pins(trigger: PeripheralHandle, echo: PeripheralHandle, timeout_us: u64) -> (r:
        DistanceSensor)
        requires
            timeout_us <= MAX_ECHO_TIMEOUT_US,
        ensures
            r.timeout() == timeout_us,
            r.phase() == SensorPhase::Idle,
            r.wf(),
    {
        DistanceSensor { trigger, echo, timeout_us, phase: SensorPhase::Idle }
    }

    /// Starts a measurement: the sensor leaves idle, and the caller must now
    /// hold the trigger pin high for the returned number of microseconds.
    pub fn begin_trigger(&mut self) -> (pulse_us: u64)
        requires
            old(self).phase() == SensorPhase::Idle,
        ensures
            pulse_us == TRIGGER_PULSE_US,
            final(self).phase() == SensorPhase::Triggered,
            final(self).timeout() == old(self).timeout(),
            old(self).wf() ==> final(self).wf(),
    {
        self.phase = SensorPhase::Triggered;
        TRIGGER_PULSE_US
    }

    /// Ends the trigger pulse: the sensor now listens for the echo, and the
    /// caller must await the echo pulse for at most the returned budget, in
    /// microseconds — never longer.
    pub fn begin_listen(&mut self) -> (budget_us: u64)
        requires
            old(self).phase() == SensorPhase::Triggered,
        ensures
            budget_us == old(self).timeout(),
            final(self).phase() == SensorPhase::Listening,
            final(self).timeout() == old(self).timeout(),
            old(self).wf() ==> final(self).wf(),
    {
        self.phase = SensorPhase::Listening;
        self.timeout_us
    }

    /// Resolves the measurement from what the bounded wait observed: the
    /// echo-high duration in microseconds, or nothing. An echo that was
    /// missing, or that outlasted the timeout window, resolves to the
    /// no-echo value; otherwise the distance follows from the round-trip
    /// time. The sensor is idle again afterwards.
    pub fn resolve(&mut self, echo_high_us: Option<u64>) -> (r: RangeSample)
        requires
            old(self).phase() == SensorPhase::Listening,
            old(self).wf(),
        ensures
            final(self).phase() == SensorPhase::Idle,
            final(self).timeout() == old(self).timeout(),
            final(self).wf(),
            (r is NoEcho) <==> (echo_high_us is None || echo_high_us->0 > old(self).timeout()),
            echo_high_us matches Some(us) ==> us <= old(self).timeout() ==> r == RangeSample::Distance(
                distance_cm_of_echo(us as int) as u64,
            ),
    {
        self.phase = SensorPhase::Idle;
        match echo_high_us {
            Some(us) if us <= self.timeout_us => {
                proof {
                    assert(us * 343 <= MAX_ECHO_TIMEOUT_US * 343) by (nonlinear_arith)
                        requires
                            us <= MAX_ECHO_TIMEOUT_US,
                    ;
                    assert(us * 343 / 20000 >= 0) by (nonlinear_arith)
                        requires
                            us >= 0,
                    ;
                }
                RangeSample::Distance(us * 343 / 20000)
            },
            _ => RangeSample::NoEcho,
        }
    }

    /// One whole measurement, resolved from what the bounded wait observed.
    /// Equivalent to trigger, listen and resolve in order: the result is the
    /// no-echo value exactly when nothing echoed within the timeout window,
    /// and the distance computed from the round-trip time otherwise.
    pub fn measure(&mut self, echo_high_us: Option<u64>) -> (r: RangeSample)
        requires
            old(self).phase() == SensorPhase::Idle,
            old(self).wf(),
        ensures
            final(self).phase() == SensorPhase::Idle,
            final(self).timeout() == old(self).timeout(),
            final(self).wf(),
            (r is NoEcho) <==> (echo_high_us is None || echo_high_us->0 > old(self).timeout()),
            echo_high_us matches Some(us) ==> us <= old(self).timeout() ==> r == RangeSample::Distance(
                distance_cm_of_echo(us as int) as u64,
            ),
    {
        let _pulse: u64 = self.begin_trigger();
        let _budget: u64 = self.begin_listen();
        self.resolve(echo_high_us)
    }
}

/// A resolved distance is never negative, whatever the echo duration was.
pub proof fn lemma_distance_nonnegative(us: int)
    requires
        us >= 0,
    ensures
        distance_cm_of_echo(us) >= 0,
{
    assert(us * 343 >= 0) by (nonlinear_arith)
        requires
            us >= 0,
    ;
}

} // verus!
