use car_core::distance::DistanceSensor;
use car_core::distance::RangeSample;
use car_core::distance::TRIGGER_PULSE_US;
use car_core::handles::HandleRegistry;

fn sensor(timeout_us: u64) -> DistanceSensor {
    let mut reg = HandleRegistry::new();
    let trig = reg.claim(10).unwrap();
    let echo = reg.claim(11).unwrap();
    DistanceSensor::from_pins(trig, echo, timeout_us)
}

#[test]
fn known_echo_gives_known_distance() {
    // 600 us of echo: 600 * 34300 cm/s / 1000000 / 2 = 10.29 cm, so 10 whole
    // centimetres.
    let mut s = sensor(1_000_000);
    let r = s.measure(Some(600));
    assert_eq!(r, RangeSample::Distance(10));
}

#[test]
fn more_round_trip_points() {
    let mut s = sensor(1_000_000);
    assert_eq!(s.measure(Some(0)), RangeSample::Distance(0));
    assert_eq!(s.measure(Some(58)), RangeSample::Distance(0));
    assert_eq!(s.measure(Some(59)), RangeSample::Distance(1));
    assert_eq!(s.measure(Some(1_000)), RangeSample::Distance(17));
    assert_eq!(s.measure(Some(11_662)), RangeSample::Distance(200));
    assert_eq!(s.measure(Some(1_000_000)), RangeSample::Distance(17_150));
}

#[test]
fn missing_echo_is_no_echo_not_an_error() {
    let mut s = sensor(1_000_000);
    assert_eq!(s.measure(None), RangeSample::NoEcho);
}

#[test]
fn echo_past_the_window_is_no_echo() {
    let mut s = sensor(1_000);
    assert_eq!(s.measure(Some(1_001)), RangeSample::NoEcho);
    assert_eq!(s.measure(Some(1_000)), RangeSample::Distance(17));
}

#[test]
fn listen_budget_is_the_configured_timeout() {
    let mut s = sensor(25_000);
    let pulse = s.begin_trigger();
    assert_eq!(pulse, TRIGGER_PULSE_US);
    let budget = s.begin_listen();
    assert_eq!(budget, 25_000);
    assert_eq!(s.resolve(None), RangeSample::NoEcho);
}

#[test]
fn sensor_is_reusable_after_each_measurement() {
    let mut s = sensor(1_000_000);
    assert_eq!(s.measure(Some(600)), RangeSample::Distance(10));
    assert_eq!(s.measure(None), RangeSample::NoEcho);
    assert_eq!(s.measure(Some(600)), RangeSample::Distance(10));
}
