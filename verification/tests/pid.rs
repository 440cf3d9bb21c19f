use flexion::cooling::pid::Pid;

#[test]
fn proportional_step() {
    let mut pid = Pid::new().with_k_p(2).with_setpoint(100).with_range(-1000..1000);
    assert_eq!(pid.step_at(0, 1000, 60), 80);
    assert_eq!(pid.step_at(500, 1000, 120), -40);
}

#[test]
fn integral_grows_with_whole_seconds() {
    let mut pid = Pid::new().with_k_i(1).with_setpoint(10).with_range(-1000..1000);
    // first step: no time has passed yet
    assert_eq!(pid.step_at(1000, 1000, 0), 0);
    // 2.5 s later: two whole seconds of an error of 10
    assert_eq!(pid.step_at(3500, 1000, 0), 20);
    assert_eq!(pid.step_at(4500, 1000, 5), 25);
}

#[test]
fn output_is_clamped_and_integral_held() {
    let mut pid = Pid::new().with_k_p(1).with_k_i(1).with_setpoint(100).with_range(0..50);
    assert_eq!(pid.step_at(0, 1000, 0), 50);
    // the integral did not wind up while clamped
    assert_eq!(pid.step_at(1000, 1000, 90), 10 + 10);
    assert_eq!(pid.step_at(2000, 1000, 200), 0);
}

#[test]
fn elapsed_seconds_follow_the_tick_rate() {
    // a microsecond clock: 1.999999 s are one whole second
    let mut pid = Pid::new().with_k_i(1).with_setpoint(10).with_range(-1000..1000);
    assert_eq!(pid.step_at(1, 1_000_000, 0), 0);
    assert_eq!(pid.step_at(2_000_000, 1_000_000, 0), 10);
    assert_eq!(pid.step_at(2_000_000 + 999_999, 1_000_000, 0), 10);
}
