use car_core::handles::HandleRegistry;
use car_core::motor::Direction;
use car_core::motor::MotorDriver;
use car_core::selftest::self_test_plan;
use car_core::selftest::PHASE_HOLD_MS;

fn motor() -> MotorDriver {
    let mut reg = HandleRegistry::new();
    let in1 = reg.claim(1).unwrap();
    let in2 = reg.claim(2).unwrap();
    let in3 = reg.claim(3).unwrap();
    let in4 = reg.claim(4).unwrap();
    let pwm = reg.claim(5).unwrap();
    MotorDriver::from_pins(in1, in2, in3, in4, pwm)
}

#[test]
fn plan_has_ten_iterations_of_four_phases() {
    let plan = self_test_plan();
    assert_eq!(plan.len(), 40);
}

#[test]
fn plan_duty_ramps_by_ten_from_ten() {
    let plan = self_test_plan();
    for it in 0..10usize {
        let duty = 10 * (it as u8 + 1);
        for ph in 0..4usize {
            assert_eq!(plan[4 * it + ph].duty, duty);
        }
    }
    assert_eq!(plan[0].duty, 10);
    assert_eq!(plan[39].duty, 100);
}

#[test]
fn plan_duty_is_monotone() {
    let plan = self_test_plan();
    for k in 1..plan.len() {
        assert!(plan[k - 1].duty <= plan[k].duty);
    }
}

#[test]
fn plan_phases_run_forward_brake_reverse_brake() {
    let plan = self_test_plan();
    for it in 0..10usize {
        assert_eq!(plan[4 * it].dir, Direction::Forward);
        assert_eq!(plan[4 * it + 1].dir, Direction::Brake);
        assert_eq!(plan[4 * it + 2].dir, Direction::Reverse);
        assert_eq!(plan[4 * it + 3].dir, Direction::Brake);
    }
}

#[test]
fn plan_holds_each_phase_one_second() {
    let plan = self_test_plan();
    for step in &plan {
        assert_eq!(step.hold_ms, PHASE_HOLD_MS);
        assert_eq!(step.hold_ms, 1000);
    }
}

#[test]
fn apply_step_drives_the_motor() {
    let mut m = motor();
    let plan = self_test_plan();
    m.apply_step(&plan[0]);
    assert_eq!(m.duty_left(), 10);
    assert_eq!(m.duty_right(), 10);
    assert_eq!(m.direction(), Direction::Forward);
    m.apply_step(&plan[39]);
    assert_eq!(m.duty_left(), 100);
    assert_eq!(m.duty_right(), 100);
    assert_eq!(m.direction(), Direction::Brake);
}
