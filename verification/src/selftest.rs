//! The motor self-test sequence.
//!
//! The test ramps the duty from 10% to 100% in 10% steps and, at each step,
//! drives forward, brakes, reverses and brakes again, holding each phase for
//! one fixed interval. The whole sequence is bounded and deterministic: ten
//! iterations of four phases. The plan below enumerates the commands; the
//! control loop applies one step, then holds for the step's interval.

use crate::motor::clamp_duty;
use crate::motor::Direction;
use crate::motor::MotorDriver;
use vstd::arithmetic::div_mod::lemma_div_is_ordered;
use vstd::arithmetic::div_mod::lemma_fundamental_div_mod_converse;
use vstd::prelude::*;

verus! {

/// How many phases one self-test iteration has.
pub const PHASES_PER_ITERATION: usize = 4;

/// How many iterations the self-test runs.
pub const ITERATIONS: usize = 10;

/// How long each phase is held, in milliseconds.
pub const PHASE_HOLD_MS: u64 = 1000;

/// One command of the self-test: a duty for both channels, a direction mode,
/// and how long to hold it.
#[derive(Clone, Copy, Debug, PartialEq, Eq, Structural)]
pub struct TestStep {
    pub duty: u8,
    pub dir: Direction,
    pub hold_ms: u64,
}

/// The direction of phase `ph` within one iteration: forward, brake,
/// reverse, brake.
pub open spec fn phase_dir(ph: int) -> Direction {
    if ph == 0 {
        Direction::Forward
    } else if ph == 1 {
        Direction::Brake
    } else if ph == 2 {
        Direction::Reverse
    } else {
        Direction::Brake
    }
}

/// The step at position `i` of the flattened plan: iteration `i / 4` runs at
/// duty `10 * (i / 4 + 1)`, and phase `i % 4` picks the direction.
pub open spec fn plan_step(i: int) -> TestStep {
    TestStep { duty: (10 * (i / 4 + 1)) as u8, dir: phase_dir(i % 4), hold_ms: PHASE_HOLD_MS }
}

/// Builds the full self-test command sequence: exactly ten iterations of
/// four phases, in order.
pub fn self_test_plan() -> (plan: Vec<TestStep>)
    ensures
        plan@.len() == 40,
        forall|i: int| 0 <= i < 40 ==> #[trigger] plan@[i] == plan_step(i),
{
    let mut plan: Vec<TestStep> = Vec::new();
    let mut k: usize = 0;
    while k < 40
        invariant
            k <= 40,
            plan@.len() == k,
            forall|i: int| 0 <= i < k ==> #[trigger] plan@[i] == plan_step(i),
        decreases 40 - k,
    {
        let duty: u8 = (10 * (k / 4 + 1)) as u8;
        let dir: Direction = match k % 4 {
            0 => Direction::Forward,
            1 => Direction::Brake,
            2 => Direction::Reverse,
            _ => Direction::Brake,
        };
        plan.push(TestStep { duty, dir, hold_ms: PHASE_HOLD_MS });
        k += 1;
    }
    plan
}

/// Within one iteration the duty is constant and the phases run forward,
/// brake, reverse, brake; the duty of iteration `it` is `10 * (it + 1)`,
/// starting at 10 and growing by 10 percentage points per iteration.
pub proof fn lemma_self_test_iteration(it: int, ph: int)
    requires
        0 <= it < 10,
        0 <= ph < 4,
    ensures
        plan_step(4 * it + ph).duty == 10 * (it + 1),
        plan_step(4 * it + ph).dir == phase_dir(ph),
        plan_step(4 * it + ph).hold_ms == PHASE_HOLD_MS,
{
    lemma_fundamental_div_mod_converse(4 * it + ph, 4, it, ph);
}

/// The duty never decreases along the plan: later steps run at least as hard
/// as earlier ones.
pub proof fn lemma_self_test_duty_monotone(i: int, j: int)
    requires
        0 <= i <= j < 40,
    ensures
        plan_step(i).duty <= plan_step(j).duty,
{
    lemma_div_is_ordered(i, j, 4);
}

impl MotorDriver {
    /// Applies one self-test step: both channels take the step's duty, and
    /// the direction mode becomes the step's phase.
    pub fn apply_step(&mut self, step: &TestStep)
        ensures
            final(self)@.left == clamp_duty(step.duty),
            final(self)@.right == clamp_duty(step.duty),
            final(self)@.dir == step.dir,
    {
        self.set_duty(step.duty, step.duty);
        match step.dir {
            Direction::Forward => self.forward(),
            Direction::Reverse => self.reverse(),
            Direction::Brake => self.brake(),
            Direction::Coast => self.coast(),
        }
    }
}

} // verus!
