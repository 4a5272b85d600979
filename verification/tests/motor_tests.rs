use car_core::handles::HandleRegistry;
use car_core::motor::Direction;
use car_core::motor::MotorDriver;

fn motor() -> MotorDriver {
    let mut reg = HandleRegistry::new();
    let in1 = reg.claim(1).unwrap();
    let in2 = reg.claim(2).unwrap();
    let in3 = reg.claim(3).unwrap();
    let in4 = reg.claim(4).unwrap();
    let pwm = reg.claim(5).unwrap();
    MotorDriver::from_pins(in1, in2, in3, in4, pwm)
}

#[test]
fn fresh_motor_coasts_at_rest() {
    let m = motor();
    assert_eq!(m.duty_left(), 0);
    assert_eq!(m.duty_right(), 0);
    assert_eq!(m.direction(), Direction::Coast);
}

#[test]
fn set_duty_keeps_in_range_values() {
    let mut m = motor();
    m.set_duty(55, 70);
    assert_eq!(m.duty_left(), 55);
    assert_eq!(m.duty_right(), 70);
    m.set_duty(0, 100);
    assert_eq!(m.duty_left(), 0);
    assert_eq!(m.duty_right(), 100);
}

#[test]
fn set_duty_clamps_out_of_range_values() {
    let mut m = motor();
    m.set_duty(101, 255);
    assert_eq!(m.duty_left(), 100);
    assert_eq!(m.duty_right(), 100);
    m.set_duty(150, 42);
    assert_eq!(m.duty_left(), 100);
    assert_eq!(m.duty_right(), 42);
}

#[test]
fn set_duty_leaves_direction_alone() {
    let mut m = motor();
    m.reverse();
    m.set_duty(30, 30);
    assert_eq!(m.direction(), Direction::Reverse);
}

#[test]
fn brake_from_any_prior_state() {
    let mut m = motor();
    m.brake();
    assert_eq!(m.direction(), Direction::Brake);
    m.forward();
    m.brake();
    assert_eq!(m.direction(), Direction::Brake);
    m.reverse();
    m.brake();
    assert_eq!(m.direction(), Direction::Brake);
    m.coast();
    m.brake();
    assert_eq!(m.direction(), Direction::Brake);
    m.brake();
    assert_eq!(m.direction(), Direction::Brake);
}

#[test]
fn direction_setters_keep_duty() {
    let mut m = motor();
    m.set_duty(60, 80);
    m.forward();
    assert_eq!((m.duty_left(), m.duty_right()), (60, 80));
    m.brake();
    assert_eq!((m.duty_left(), m.duty_right()), (60, 80));
    m.reverse();
    assert_eq!((m.duty_left(), m.duty_right()), (60, 80));
    m.coast();
    assert_eq!((m.duty_left(), m.duty_right()), (60, 80));
}
