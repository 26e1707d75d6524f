use catears::color::{interpolate_color, scale_brightness, Color};
use catears::lights::patterns;
use catears::lights::{ChasePattern, LedPattern, Mode, PulsePattern, RainbowPattern};
use catears::render::{generate_pattern, PatternState, WAVE_MAX};

fn tick(mode: &Mode, state: &mut PatternState, brightness: u8, wave: u16) -> [Color; 12] {
    state.advance(mode);
    generate_pattern(mode, state, brightness, wave)
}

#[test]
fn scale_by_zero_is_black_and_by_full_is_identity() {
    let c = Color::new(200, 17, 255);
    assert_eq!(scale_brightness(c, 0), Color::new(0, 0, 0));
    assert_eq!(scale_brightness(c, 255), c);
}

#[test]
fn scale_is_monotonic_in_the_factor() {
    let c = Color::new(200, 17, 255);
    let mut previous = scale_brightness(c, 0);
    for f in 1..=255u8 {
        let next = scale_brightness(c, f);
        assert!(next.r >= previous.r && next.g >= previous.g && next.b >= previous.b);
        previous = next;
    }
}

#[test]
fn scale_truncates() {
    // 200 * 128 / 255 = 100.39, 17 * 128 / 255 = 8.53, 255 * 128 / 255 = 128
    assert_eq!(scale_brightness(Color::new(200, 17, 255), 128), Color::new(100, 8, 128));
}

#[test]
fn gradient_runs_from_start_to_end() {
    let start = Color::new(255, 0, 0);
    let end = Color::new(255, 150, 0);
    assert_eq!(interpolate_color(start, end, 0), start);
    assert_eq!(interpolate_color(start, end, 11), end);
    // 150 * 5 / 11 = 68.18
    assert_eq!(interpolate_color(start, end, 5), Color::new(255, 68, 0));
    let mut state = PatternState::new();
    let frame = tick(&Mode::Gradient(start, end), &mut state, 255, 0);
    assert_eq!(frame[0], start);
    assert_eq!(frame[11], end);
    assert_eq!(frame[5], Color::new(255, 68, 0));
}

#[test]
fn off_and_solid_frames() {
    let mut state = PatternState::new();
    let off = tick(&Mode::Off, &mut state, 255, 0);
    assert!(off.iter().all(|c| *c == Color::new(0, 0, 0)));
    let solid = tick(&Mode::Solid(Color::new(100, 200, 50)), &mut state, 51, 0);
    // 100 / 5, 200 / 5, 50 / 5
    assert!(solid.iter().all(|c| *c == Color::new(20, 40, 10)));
}

#[test]
fn custom_pattern_scales_each_pixel() {
    let mut colors = [Color::new(0, 0, 0); 12];
    colors[3] = Color::new(255, 255, 255);
    colors[7] = Color::new(10, 20, 30);
    let pattern = LedPattern::from_colors(&colors).with_loop();
    assert!(pattern.looping);
    let mut state = PatternState::new();
    let frame = tick(&Mode::Custom(pattern), &mut state, 255, 0);
    assert_eq!(frame, colors);
    let dim = tick(&Mode::Custom(pattern), &mut state, 0, 0);
    assert!(dim.iter().all(|c| *c == Color::new(0, 0, 0)));
}

fn lit_pixels(frame: &[Color; 12], color: Color) -> Vec<usize> {
    (0..12).filter(|&i| frame[i] == color).collect()
}

fn contiguous(lit: &[usize], length: usize) -> bool {
    (0..12).any(|start| (0..length).all(|i| lit.contains(&((start + i) % 12)))) && lit.len() == length
}

#[test]
fn chase_rotation_lights_every_pixel_equally() {
    let red = Color::new(255, 0, 0);
    for &(length, speed, clockwise) in &[(3u8, 30u16, true), (5, 100, false), (1, 0, true), (12, 20, true)] {
        let mut pattern = ChasePattern::new(red, length, speed);
        if !clockwise {
            pattern = pattern.counter_clockwise();
        }
        let mode = Mode::Chase(pattern);
        let steps = std::cmp::max(1, speed as usize / 10);
        let mut state = PatternState::new();
        let mut counts = [0usize; 12];
        for _ in 0..12 * steps {
            let frame = tick(&mode, &mut state, 255, 0);
            let lit = lit_pixels(&frame, red);
            assert!(contiguous(&lit, length as usize));
            for p in lit {
                counts[p] += 1;
            }
        }
        assert!(counts.iter().all(|&c| c == length as usize * steps), "{:?}", counts);
    }
}

#[test]
fn chase_direction_and_background() {
    let pattern = ChasePattern::new(Color::new(255, 0, 0), 3, 10).with_background(Color::new(0, 0, 255));
    let mut state = PatternState::new();
    // one step per tick: the first tick starts the segment on pixel 1
    let frame = tick(&Mode::Chase(pattern), &mut state, 255, 0);
    assert_eq!(lit_pixels(&frame, Color::new(255, 0, 0)), vec![1, 2, 3]);
    assert_eq!(frame[0], Color::new(0, 0, 255));
    let mut state = PatternState::new();
    let frame = tick(&Mode::Chase(pattern.counter_clockwise()), &mut state, 255, 0);
    assert_eq!(lit_pixels(&frame, Color::new(255, 0, 0)), vec![0, 1, 11]);
}

#[test]
fn pulse_brightness_stays_in_range_and_repeats() {
    let pattern = PulsePattern::new(Color::new(255, 255, 255), 3000).with_brightness_range(20, 200);
    let mode = Mode::Pulse(pattern);
    let mut state = PatternState::new();
    let mut first_cycle = Vec::new();
    for n in 0..600 {
        state.advance(&mode);
        assert!(state.pulse_phase < 3000);
        let t = state.pulse_phase as f64 / 3000.0;
        let wave = (((t * 2.0 * std::f64::consts::PI).sin() + 1.0) / 2.0 * WAVE_MAX as f64).round() as u16;
        let frame = generate_pattern(&mode, &state, 255, wave);
        assert!(frame[0].r >= 20 && frame[0].r <= 200);
        if n < 300 {
            first_cycle.push(frame);
        } else {
            assert_eq!(frame, first_cycle[n - 300]);
        }
    }
    let mut state = PatternState::new();
    assert_eq!(tick(&mode, &mut state, 255, 0)[0], Color::new(20, 20, 20));
    assert_eq!(tick(&mode, &mut state, 255, WAVE_MAX)[0], Color::new(200, 200, 200));
}

#[test]
fn pulse_scales_twice() {
    let mode = Mode::Pulse(PulsePattern::new(Color::new(255, 100, 0), 1000));
    let mut state = PatternState::new();
    // level 127 at the midpoint of the wave, then the global brightness
    let frame = tick(&mode, &mut state, 128, 32767);
    let once = scale_brightness(Color::new(255, 100, 0), 127);
    assert_eq!(frame[0], scale_brightness(once, 128));
}

#[test]
fn rainbow_uses_hsv_conversion() {
    let mut state = PatternState::new();
    let mode = Mode::Rainbow(RainbowPattern::new(10000).unified());
    // 255 / 1000 = 0: the hue stays at 0, which is pure red
    let frame = tick(&mode, &mut state, 255, 0);
    assert_eq!(state.hue, 0);
    assert!(frame.iter().all(|c| *c == Color::new(255, 0, 0)));
    let spread = Mode::Rainbow(RainbowPattern::new(10000).with_brightness(255));
    let frame = tick(&spread, &mut state, 255, 0);
    // pixel 4 has hue 84: the green end of the second sector
    assert_eq!(frame[0], Color::new(255, 0, 0));
    assert_ne!(frame[4], frame[0]);
    assert_eq!(frame[4].g, 255);
}

#[test]
fn rainbow_hue_advances_by_speed() {
    let mut state = PatternState::new();
    let mode = Mode::Rainbow(RainbowPattern::new(50));
    state.advance(&mode);
    // 255 / (50 / 10) = 51
    assert_eq!(state.hue, 51);
    for _ in 0..4 {
        state.advance(&mode);
    }
    assert_eq!(state.hue, 255);
    state.advance(&mode);
    assert_eq!(state.hue, 50);
}

#[test]
fn named_patterns() {
    match patterns::police() {
        Mode::Chase(p) => {
            assert_eq!(p.length, 6);
            assert_eq!(p.speed_ms, 100);
            assert_eq!(p.background, Color::new(0, 0, 255));
        }
        _ => panic!("police is a chase"),
    }
    match patterns::breathing() {
        Mode::Pulse(p) => assert_eq!((p.min_brightness, p.max_brightness, p.period_ms), (20, 255, 3000)),
        _ => panic!("breathing is a pulse"),
    }
    match patterns::cat_eyes() {
        Mode::Custom(p) => {
            assert_eq!(p.leds[0], Color::new(255, 150, 0));
            assert_eq!(p.leds[6], Color::new(255, 150, 0));
            assert_eq!(p.leds[1], Color::new(0, 0, 0));
        }
        _ => panic!("cat eyes is custom"),
    }
    assert_eq!(patterns::fire(), Mode::Gradient(Color::new(255, 0, 0), Color::new(255, 150, 0)));
    assert_eq!(patterns::party(), Mode::Rainbow(RainbowPattern::new(50)));
}

#[test]
fn chase_edge_lengths() {
    let red = Color::new(255, 0, 0);
    let blue = Color::new(0, 0, 255);
    let mut state = PatternState::new();
    let none = tick(&Mode::Chase(ChasePattern::new(red, 0, 10).with_background(blue)), &mut state, 255, 0);
    assert!(none.iter().all(|c| *c == blue));
    let all = tick(&Mode::Chase(ChasePattern::new(red, 20, 10).counter_clockwise()), &mut state, 255, 0);
    assert!(all.iter().all(|c| *c == red));
}

#[test]
fn chase_counter_wraps_after_one_rotation() {
    let mode = Mode::Chase(ChasePattern::new(Color::new(1, 1, 1), 2, 30));
    let mut state = PatternState::new();
    for _ in 0..35 {
        state.advance(&mode);
    }
    assert_eq!(state.position, 35);
    state.advance(&mode);
    assert_eq!(state.position, 0);
}

#[test]
fn pulse_with_zero_period_holds_phase() {
    let mode = Mode::Pulse(PulsePattern::new(Color::new(255, 255, 255), 0));
    let mut state = PatternState::new();
    for _ in 0..5 {
        state.advance(&mode);
        assert_eq!(state.pulse_phase, 0);
    }
}

#[test]
fn pulse_with_inverted_range_stays_between_levels() {
    let mode = Mode::Pulse(PulsePattern::new(Color::new(255, 255, 255), 100).with_brightness_range(200, 50));
    let state = PatternState::new();
    assert_eq!(generate_pattern(&mode, &state, 255, 0)[0], Color::new(200, 200, 200));
    assert_eq!(generate_pattern(&mode, &state, 255, WAVE_MAX)[0], Color::new(50, 50, 50));
    let mid = generate_pattern(&mode, &state, 255, WAVE_MAX / 2)[0].r;
    assert!(mid >= 50 && mid <= 200);
}

#[test]
fn rainbow_at_speed_zero_steps_by_full_hue() {
    let mode = Mode::Rainbow(RainbowPattern::new(0));
    let mut state = PatternState::new();
    state.advance(&mode);
    assert_eq!(state.hue, 255);
    state.advance(&mode);
    assert_eq!(state.hue, 254);
}
