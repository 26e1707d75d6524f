use catears::audio::{chiptunes, Mode as AudioMode};
use catears::color::Color;
use catears::lights::{ChasePattern, Mode as LightMode, PulsePattern};
use catears::servo::{duty_for_rotation, Config, ConfigError};
use catears::state::{commit, Lights, ServoMode, Servos, Speakers, State};

#[test]
fn start_up_state() {
    let s = State::default_const();
    assert_eq!(s.servos.left, ServoMode::Static(125));
    assert_eq!(s.servos.right, ServoMode::Static(125));
    assert_eq!(s.lights.left, LightMode::Pulse(PulsePattern::new(Color::new(255, 0, 0), 250)));
    assert_eq!(s.lights.brightness, 255);
    assert_eq!(s.speakers.mode, AudioMode::Silent);
    assert_eq!(s.speakers.volume, 128);
    assert_eq!(Servos::default_const(), Servos::default());
    assert_eq!(ServoMode::default(), ServoMode::Static(125));
    assert_eq!(Speakers::default_const().volume, 128);
    assert_eq!(Lights::default_const().right, s.lights.right);
}

#[test]
fn commit_replaces_the_whole_state_or_nothing() {
    let old = State::default_const();
    let mut new = old;
    new.servos.left = ServoMode::Static(10);
    new.lights.right = LightMode::Solid(Color::new(1, 2, 3));
    let reader_before = old;
    let stored = commit(&old, &new).unwrap();
    assert_eq!(stored, new);
    assert_eq!(stored.servos.left, ServoMode::Static(10));
    assert_eq!(stored.lights.right, LightMode::Solid(Color::new(1, 2, 3)));
    assert_eq!(reader_before, old);
    assert_eq!(commit(&stored, &new), None);
}

#[test]
fn malformed_state_is_rejected() {
    let old = State::default_const();
    let mut bad = old;
    bad.lights.left = LightMode::Chase(ChasePattern::new(Color::new(1, 1, 1), 13, 100));
    assert!(!bad.is_well_formed());
    assert_eq!(commit(&old, &bad), None);
    let mut bad_audio = old;
    let mut melody = chiptunes::happy();
    melody.length = 65;
    bad_audio.speakers.mode = AudioMode::Chiptune(melody);
    assert_eq!(commit(&old, &bad_audio), None);
    melody.length = 64;
    bad_audio.speakers.mode = AudioMode::Chiptune(melody);
    assert_eq!(commit(&old, &bad_audio), Some(bad_audio));
}

#[test]
fn servo_resting_positions() {
    assert_eq!(ServoMode::Static(42).resting_position(), 42);
    assert_eq!(ServoMode::Sweep { min: 10, max: 200, speed_ms: 1000 }.resting_position(), 10);
    assert_eq!(ServoMode::Twitch { center: 99, amplitude: 20, interval_ms: 500 }.resting_position(), 99);
}

#[test]
fn servo_duty_mapping() {
    let c = Config::mg995();
    // 20000 us over 20000 ticks: one microsecond per tick
    assert_eq!(duty_for_rotation(&c, 19_999, 0), Ok(500));
    assert_eq!(duty_for_rotation(&c, 19_999, 255), Ok(2500));
    // 500 + 2000 * 128 / 255 = 1503.9
    assert_eq!(duty_for_rotation(&c, 19_999, 128), Ok(1503));
    let mut previous = 0;
    for r in 0..=255u8 {
        let d = duty_for_rotation(&Config::sg90(), 1000, r).unwrap();
        assert!(d >= previous);
        previous = d;
    }
    // 20000 / 1001 = 19 us per tick: 500 / 19 = 26, 2500 / 19 = 131
    assert_eq!(duty_for_rotation(&Config::sg90(), 1000, 0), Ok(26));
    assert_eq!(duty_for_rotation(&Config::sg90(), 1000, 255), Ok(131));
}

#[test]
fn servo_configuration_errors() {
    let short = Config { pwm_period_us: 100, min_pulse_width_us: 10, max_pulse_width_us: 20 };
    assert_eq!(duty_for_rotation(&short, 1000, 0), Err(ConfigError::ZeroTickWidth));
    let inverted = Config { pwm_period_us: 20_000, min_pulse_width_us: 2500, max_pulse_width_us: 500 };
    assert_eq!(duty_for_rotation(&inverted, 19_999, 0), Err(ConfigError::InvertedRange));
    let long = Config { pwm_period_us: 20_000, min_pulse_width_us: 500, max_pulse_width_us: 100_000 };
    assert_eq!(duty_for_rotation(&long, 19_999, 0), Ok(500));
    assert_eq!(duty_for_rotation(&long, 19_999, 255), Err(ConfigError::DutyOutOfRange));
}
