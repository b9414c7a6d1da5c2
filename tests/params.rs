use voice_changer::params::{step_down, step_up, SessionParameters, MIN_RATIO, MIN_SPEED};

#[test]
fn ratio_decrement_at_floor_is_refused() {
    assert_eq!(step_down(1, MIN_RATIO), 1);
    assert_eq!(step_down(1, MIN_RATIO), 1);
    assert_eq!(step_down(2, MIN_RATIO), 1);
}

#[test]
fn speed_decrement_stops_at_three_ms() {
    assert_eq!(step_down(31, MIN_SPEED), 30);
    assert_eq!(step_down(30, MIN_SPEED), 30);
    assert_eq!(step_down(12, MIN_SPEED), 12);
}

#[test]
fn increments_add_one_tenth() {
    assert_eq!(step_up(10), 11);
    assert_eq!(step_up(u64::MAX), u64::MAX);
}

#[test]
fn defaults_follow_frame_period() {
    let p = SessionParameters::new(50);
    assert_eq!(p, SessionParameters { pitch_ratio: 10, speed: 50, spectral_ratio: 10, volume: 10 });
}
