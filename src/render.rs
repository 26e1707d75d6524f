//! The LED pattern engine: one twelve-pixel frame per tick for each ring.
//!
//! A tick first advances the ring's animation counters with
//! [`PatternState::advance`] and then renders the frame with [`generate_pattern`].
//! The pulse wave, a sine of the pulse phase, is computed by the caller and handed
//! in as a fixed-point level (see [`generate_pattern`]).

use crate::color::{black, blended, interpolate_color, scale_brightness, scaled, Color};
use crate::lights::{ChasePattern, Mode, PulsePattern};
use vstd::prelude::*;
use vstd::set_lib::{lemma_int_range, lemma_map_size, set_int_range};

verus! {

/// Milliseconds per tick of the render loop.
pub const TICK_MS: u16 = 10;

/// Full scale of the fixed-point pulse wave: 0 is the trough, this is the crest.
pub const WAVE_MAX: u16 = 65535;

/// Hue distance between neighbouring pixels of a spread rainbow (about 255 / 12).
pub const HUE_SPREAD: u8 = 21;

/// Animation counters of one ring, owned by the task that renders it.
#[derive(Debug, Clone, Copy, PartialEq, Eq, Structural, Default)]
pub struct PatternState {
    /// Chase counter, in ticks, kept below one full rotation.
    pub position: u32,
    /// Current rainbow hue.
    pub hue: u8,
    /// Pulse phase in milliseconds, kept below the pulse period.
    pub pulse_phase: u16,
}

/// Ticks the chase rests on each step: `max(1, speed_ms / 10)`.
pub open spec fn steps_per_rotation(speed_ms: u16) -> int {
    if speed_ms / 10 >= 1 {
        (speed_ms / 10) as int
    } else {
        1
    }
}

/// Ticks in one full chase rotation of twelve steps.
pub open spec fn rotation_ticks(speed_ms: u16) -> int {
    12 * steps_per_rotation(speed_ms)
}

/// The step (0 to 11) that the chase segment starts on.
pub open spec fn chase_step(position: int, speed_ms: u16) -> int {
    (position / steps_per_rotation(speed_ms)) % 12
}

/// Whether `pixel` lies in the segment of `length` pixels that starts at `step` and
/// runs forwards (clockwise) or backwards around the ring.
pub open spec fn chase_lit(pixel: int, step: int, length: int, clockwise: bool) -> bool {
    if clockwise {
        (pixel - step) % 12 < length
    } else {
        (step - pixel) % 12 < length
    }
}

/// Hue added per tick: `floor(255 / max(1, speed_ms / 10))`.
pub open spec fn hue_step(speed_ms: u16) -> int {
    255int / steps_per_rotation(speed_ms)
}

/// Next pulse phase: ten milliseconds on, wrapped into the period.
pub open spec fn next_pulse_phase(phase: int, period_ms: u16) -> int {
    if period_ms == 0 {
        0
    } else {
        (phase + TICK_MS) % (period_ms as int)
    }
}

/// Brightness of the pulse at wave level `wave`: `min` at the trough, `max` at the
/// crest, linear in between with truncation towards `min`.
pub open spec fn pulse_level(min: u8, max: u8, wave: u16) -> int {
    if min <= max {
        min + (max - min) * wave / (WAVE_MAX as int)
    } else {
        min - (min - max) * wave / (WAVE_MAX as int)
    }
}

/// Hue of pixel `i` of a rainbow.
pub open spec fn rainbow_hue(hue: u8, spread: bool, i: int) -> u8 {
    if spread {
        ((hue + i * HUE_SPREAD) % 256) as u8
    } else {
        hue
    }
}

/// The RGB color that smart-leds' HSV conversion gives for these components.
pub uninterp spec fn hsv_to_rgb(hue: u8, sat: u8, val: u8) -> (u8, u8, u8);

/// The fully saturated color of `hue` at value `val`.
pub open spec fn hsv_color_of(hue: u8, val: u8) -> Color {
    Color { r: hsv_to_rgb(hue, 255, val).0, g: hsv_to_rgb(hue, 255, val).1, b: hsv_to_rgb(hue, 255, val).2 }
}

/// Relies on `smart_leds::hsv::hsv2rgb` for the HSV to RGB conversion; its result
/// depends on the three components alone.
#[verifier::external_body]
fn hsv_color(hue: u8, sat: u8, val: u8) -> (c: Color)
    ensures
        (c.r, c.g, c.b) == hsv_to_rgb(hue, sat, val),
{
    let rgb = smart_leds::hsv::hsv2rgb(smart_leds::hsv::Hsv { hue, sat, val });
    Color { r: rgb.r, g: rgb.g, b: rgb.b }
}

/// The counters after one tick of `mode`: only the counter that `mode` animates moves.
pub open spec fn advanced(s: PatternState, mode: Mode) -> PatternState {
    match mode {
        Mode::Chase(p) => PatternState {
            position: ((s.position + 1) % rotation_ticks(p.speed_ms)) as u32,
            ..s
        },
        Mode::Pulse(p) => PatternState {
            pulse_phase: next_pulse_phase(s.pulse_phase as int, p.period_ms) as u16,
            ..s
        },
        Mode::Rainbow(p) => PatternState { hue: ((s.hue + hue_step(p.speed_ms)) % 256) as u8, ..s },
        _ => s,
    }
}

/// Pixel `i` of the frame for `mode`, under counters `s`, global brightness
/// `brightness` and pulse wave level `wave`.
pub open spec fn pixel(mode: Mode, s: PatternState, brightness: u8, wave: u16, i: int) -> Color {
    match mode {
        Mode::Off => black(),
        Mode::Solid(c) => scaled(c, brightness),
        Mode::Gradient(from, to) => scaled(blended(from, to, i), brightness),
        Mode::Chase(p) => if chase_lit(i, chase_step(s.position as int, p.speed_ms), p.length as int, p.clockwise) {
            scaled(p.color, brightness)
        } else {
            scaled(p.background, brightness)
        },
        Mode::Pulse(p) => scaled(
            scaled(p.color, pulse_level(p.min_brightness, p.max_brightness, wave) as u8),
            brightness,
        ),
        Mode::Rainbow(p) => scaled(hsv_color_of(rainbow_hue(s.hue, p.spread, i), p.brightness), brightness),
        Mode::Custom(p) => scaled(p.leds[i], brightness),
    }
}

fn steps_for(speed_ms: u16) -> (r: u32)
    ensures
        r == steps_per_rotation(speed_ms),
        1 <= r <= 6553,
{
    let s = speed_ms / 10;
    if s >= 1 {
        s as u32
    } else {
        1
    }
}

impl PatternState {
    /// Counters at the start of a render task.
    pub fn new() -> (s: PatternState)
        ensures
            s == (PatternState { position: 0, hue: 0, pulse_phase: 0 }),
    {
        PatternState { position: 0, hue: 0, pulse_phase: 0 }
    }

    /// Moves the counters on by one tick of `mode`.
    pub fn advance(&mut self, mode: &Mode)
        ensures
            *final(self) == advanced(*old(self), *mode),
    {
        match mode {
            Mode::Chase(p) => {
                let ticks: u32 = 12 * steps_for(p.speed_ms);
                let next: u32 = self.position % ticks + 1;
                proof {
                    vstd::arithmetic::div_mod::lemma_add_mod_noop(self.position as int, 1, ticks as int);
                    vstd::arithmetic::div_mod::lemma_small_mod(1, ticks as nat);
                }
                self.position = next % ticks;
            },
            Mode::Pulse(p) => {
                if p.period_ms == 0 {
                    self.pulse_phase = 0;
                } else {
                    self.pulse_phase = ((self.pulse_phase as u32 + 10) % (p.period_ms as u32)) as u16;
                }
            },
            Mode::Rainbow(p) => {
                let step: u32 = 255 / steps_for(p.speed_ms);
                self.hue = ((self.hue as u32 + step) % 256) as u8;
            },
            _ => {},
        }
    }
}

fn chase_pixel_lit(pixel: u32, step: u32, length: u8, clockwise: bool) -> (r: bool)
    requires
        pixel < 12,
        step < 12,
    ensures
        r == chase_lit(pixel as int, step as int, length as int, clockwise),
{
    if clockwise {
        (pixel + 12 - step) % 12 < length as u32
    } else {
        (step + 12 - pixel) % 12 < length as u32
    }
}

fn pulse_brightness(min: u8, max: u8, wave: u16) -> (r: u8)
    ensures
        r == pulse_level(min, max, wave),
{
    if min <= max {
        let d: u32 = (max - min) as u32;
        proof {
            assert(d * wave <= d * 65535) by (nonlinear_arith)
                requires wave <= 65535;
            vstd::arithmetic::div_mod::lemma_div_is_ordered(d * wave, d * 65535, 65535);
            vstd::arithmetic::div_mod::lemma_div_multiples_vanish(d as int, 65535);
        }
        min + (d * wave as u32 / 65535) as u8
    } else {
        let d: u32 = (min - max) as u32;
        proof {
            assert(d * wave <= d * 65535) by (nonlinear_arith)
                requires wave <= 65535;
            vstd::arithmetic::div_mod::lemma_div_is_ordered(d * wave, d * 65535, 65535);
            vstd::arithmetic::div_mod::lemma_div_multiples_vanish(d as int, 65535);
        }
        min - (d * wave as u32 / 65535) as u8
    }
}

/// Renders one frame of `mode` from the counters `state` (already advanced for this
/// tick) and the global brightness.
///
/// `pulse_wave` is read by pulse mode only: the level `(sin(2π·phase/period) + 1) / 2`
/// of the pulse phase `state.pulse_phase` in a period of `period_ms`, as a fraction of
/// [`WAVE_MAX`].
pub fn generate_pattern(mode: &Mode, state: &PatternState, brightness_scale: u8, pulse_wave: u16) -> (frame: [Color; 12])
    ensures
        forall|i: int| 0 <= i < 12 ==> frame[i] == pixel(*mode, *state, brightness_scale, pulse_wave, i),
{
    let mut frame = [Color::black(); 12];
    let mut i: usize = 0;
    match mode {
        Mode::Off => {},
        Mode::Solid(c) => {
            let lit = scale_brightness(*c, brightness_scale);
            while i < 12
                invariant
                    i <= 12,
                    *mode == Mode::Solid(*c),
                    lit == scaled(*c, brightness_scale),
                    forall|j: int| 0 <= j < i ==> frame[j] == pixel(*mode, *state, brightness_scale, pulse_wave, j),
                decreases 12 - i,
            {
                frame[i] = lit;
                i += 1;
            }
        },
        Mode::Gradient(from, to) => {
            while i < 12
                invariant
                    i <= 12,
                    *mode == Mode::Gradient(*from, *to),
                    forall|j: int| 0 <= j < i ==> frame[j] == pixel(*mode, *state, brightness_scale, pulse_wave, j),
                decreases 12 - i,
            {
                frame[i] = scale_brightness(interpolate_color(*from, *to, i as u8), brightness_scale);
                i += 1;
            }
        },
        Mode::Chase(p) => {
            let step: u32 = (state.position / steps_for(p.speed_ms)) % 12;
            let lit = scale_brightness(p.color, brightness_scale);
            let background = scale_brightness(p.background, brightness_scale);
            while i < 12
                invariant
                    i <= 12,
                    step == chase_step(state.position as int, p.speed_ms),
                    lit == scaled(p.color, brightness_scale),
                    background == scaled(p.background, brightness_scale),
                    *mode == Mode::Chase(*p),
                    forall|j: int| 0 <= j < i ==> frame[j] == pixel(*mode, *state, brightness_scale, pulse_wave, j),
                decreases 12 - i,
            {
                frame[i] = if chase_pixel_lit(i as u32, step, p.length, p.clockwise) {
                    lit
                } else {
                    background
                };
                i += 1;
            }
        },
        Mode::Pulse(p) => {
            let level = pulse_brightness(p.min_brightness, p.max_brightness, pulse_wave);
            let lit = scale_brightness(scale_brightness(p.color, level), brightness_scale);
            while i < 12
                invariant
                    i <= 12,
                    *mode == Mode::Pulse(*p),
                    lit == pixel(*mode, *state, brightness_scale, pulse_wave, 0),
                    forall|j: int| 0 <= j < i ==> frame[j] == pixel(*mode, *state, brightness_scale, pulse_wave, j),
                decreases 12 - i,
            {
                frame[i] = lit;
                i += 1;
            }
        },
        Mode::Rainbow(p) => {
            while i < 12
                invariant
                    i <= 12,
                    *mode == Mode::Rainbow(*p),
                    forall|j: int| 0 <= j < i ==> frame[j] == pixel(*mode, *state, brightness_scale, pulse_wave, j),
                decreases 12 - i,
            {
                let hue: u8 = if p.spread {
                    ((state.hue as u32 + i as u32 * 21) % 256) as u8
                } else {
                    state.hue
                };
                frame[i] = scale_brightness(hsv_color(hue, 255, p.brightness), brightness_scale);
                i += 1;
            }
        },
        Mode::Custom(p) => {
            while i < 12
                invariant
                    i <= 12,
                    *mode == Mode::Custom(*p),
                    forall|j: int| 0 <= j < i ==> frame[j] == pixel(*mode, *state, brightness_scale, pulse_wave, j),
                decreases 12 - i,
            {
                frame[i] = scale_brightness(p.leds[i], brightness_scale);
                i += 1;
            }
        },
    }
    frame
}

/// The counters after `n` ticks of `mode`.
pub open spec fn advanced_n(s: PatternState, mode: Mode, n: nat) -> PatternState
    decreases n,
{
    if n == 0 {
        s
    } else {
        advanced(advanced_n(s, mode, (n - 1) as nat), mode)
    }
}

/// The pixels lit by a chase segment of `length` starting at `step`.
pub open spec fn chase_segment(step: int, length: int, clockwise: bool) -> Set<int> {
    Set::new(|pixel: int| 0 <= pixel < 12 && chase_lit(pixel, step, length, clockwise))
}

/// The steps of one rotation on which `pixel` is lit.
pub open spec fn chase_steps_lighting(pixel: int, length: int, clockwise: bool) -> Set<int> {
    Set::new(|step: int| 0 <= step < 12 && chase_lit(pixel, step, length, clockwise))
}

/// At every step the lit pixels are one unbroken run around the ring: the `length`
/// pixels `step, step ± 1, ...` (modulo 12) in the direction of rotation.
pub proof fn lemma_chase_segment_contiguous(step: int, length: int, clockwise: bool)
    requires
        0 <= step < 12,
        0 <= length <= 12,
    ensures
        chase_segment(step, length, clockwise) == set_int_range(0, length).map(
            |j: int| if clockwise { (step + j) % 12 } else { (step - j) % 12 },
        ),
{
    let f = |j: int| if clockwise { (step + j) % 12 } else { (step - j) % 12 };
    let image = set_int_range(0, length).map(f);
    assert forall|pixel: int| #[trigger] chase_segment(step, length, clockwise).contains(pixel) implies image.contains(pixel) by {
        let j = if clockwise { (pixel - step) % 12 } else { (step - pixel) % 12 };
        lemma_ring_offset(pixel, step);
        lemma_ring_offset(step, pixel);
        assert(set_int_range(0, length).contains(j));
        assert(f(j) == pixel);
    }
    assert forall|pixel: int| #[trigger] image.contains(pixel) implies chase_segment(step, length, clockwise).contains(pixel) by {
        let j = choose|j: int| set_int_range(0, length).contains(j) && f(j) == pixel;
        lemma_ring_back(step, j, clockwise);
    }
    assert(chase_segment(step, length, clockwise) =~= image);
}

proof fn lemma_ring_offset(a: int, b: int)
    requires
        0 <= a < 12,
        0 <= b < 12,
    ensures
        0 <= (a - b) % 12 < 12,
        (b + (a - b) % 12) % 12 == a,
        (b - (b - a) % 12) % 12 == a,
{
}

proof fn lemma_ring_back(step: int, j: int, clockwise: bool)
    requires
        0 <= step < 12,
        0 <= j < 12,
    ensures
        0 <= (if clockwise { (step + j) % 12 } else { (step - j) % 12 }) < 12,
        chase_lit(
            if clockwise { (step + j) % 12 } else { (step - j) % 12 },
            step,
            j + 1,
            clockwise,
        ),
        clockwise ==> ((step + j) % 12 - step) % 12 == j,
        !clockwise ==> (step - (step - j) % 12) % 12 == j,
{
}

/// Over one rotation of twelve steps, every pixel is lit on exactly `length` of the
/// steps.
pub proof fn lemma_chase_rotation_coverage(pixel: int, length: int, clockwise: bool)
    requires
        0 <= pixel < 12,
        0 <= length <= 12,
    ensures
        chase_steps_lighting(pixel, length, clockwise).len() == length,
{
    let f = |j: int| if clockwise { (pixel - j) % 12 } else { (pixel + j) % 12 };
    let range = set_int_range(0, length);
    let steps = chase_steps_lighting(pixel, length, clockwise);
    lemma_int_range(0, length);
    assert forall|step: int| #[trigger] steps.contains(step) implies range.map(f).contains(step) by {
        lemma_ring_offset(step, pixel);
        let j = if clockwise { (pixel - step) % 12 } else { (step - pixel) % 12 };
        assert(range.contains(j));
        assert(f(j) == step);
    }
    assert forall|step: int| #[trigger] range.map(f).contains(step) implies steps.contains(step) by {
        let j = choose|j: int| range.contains(j) && f(j) == step;
        lemma_ring_inverse(pixel, j);
    }
    assert(range.map(f) =~= steps);
    assert forall|j1: int, j2: int| range.contains(j1) && range.contains(j2) && #[trigger] f(j1) == #[trigger] f(j2) implies j1 == j2 by {
        lemma_ring_inverse(pixel, j1);
        lemma_ring_inverse(pixel, j2);
    }
    assert(vstd::relations::injective_on(f, range));
    lemma_map_size(range, steps, f);
}

proof fn lemma_ring_inverse(pixel: int, j: int)
    requires
        0 <= pixel < 12,
        0 <= j < 12,
    ensures
        0 <= (pixel - j) % 12 < 12,
        0 <= (pixel + j) % 12 < 12,
        (pixel - (pixel - j) % 12) % 12 == j,
        ((pixel + j) % 12 - pixel) % 12 == j,
{
}

/// How many of the chase counter values `0..n` light `pixel` under chase `p`; one
/// rotation runs the counter through `0..rotation_ticks` once.
pub open spec fn lit_ticks(pixel: int, p: ChasePattern, n: nat) -> nat
    decreases n,
{
    if n == 0 {
        0
    } else {
        lit_ticks(pixel, p, (n - 1) as nat) + if chase_lit(
            pixel,
            chase_step(n - 1, p.speed_ms),
            p.length as int,
            p.clockwise,
        ) {
            1nat
        } else {
            0nat
        }
    }
}

proof fn lemma_lit_ticks_in_step(pixel: int, p: ChasePattern, k: nat, j: nat)
    requires
        k < 12,
        j <= steps_per_rotation(p.speed_ms),
    ensures
        lit_ticks(pixel, p, k * steps_per_rotation(p.speed_ms) as nat + j) == lit_ticks(
            pixel,
            p,
            k * steps_per_rotation(p.speed_ms) as nat,
        ) + if chase_lit(pixel, k as int, p.length as int, p.clockwise) {
            j
        } else {
            0
        },
    decreases j,
{
    let s = steps_per_rotation(p.speed_ms);
    if j > 0 {
        lemma_lit_ticks_in_step(pixel, p, k, (j - 1) as nat);
        vstd::arithmetic::div_mod::lemma_div_multiples_vanish_fancy(k as int, j - 1, s);
        assert(s * k + (j - 1) == k * s + j - 1) by (nonlinear_arith);
        vstd::arithmetic::div_mod::lemma_small_mod(k, 12);
    }
}

/// The steps below `k` on which `pixel` is lit.
pub open spec fn lit_steps_below(pixel: int, length: int, clockwise: bool, k: int) -> Set<int> {
    Set::new(|step: int| 0 <= step < k && chase_lit(pixel, step, length, clockwise))
}

proof fn lemma_lit_ticks_by_steps(pixel: int, p: ChasePattern, k: nat)
    requires
        k <= 12,
    ensures
        lit_steps_below(pixel, p.length as int, p.clockwise, k as int).finite(),
        lit_ticks(pixel, p, k * steps_per_rotation(p.speed_ms) as nat)
            == lit_steps_below(pixel, p.length as int, p.clockwise, k as int).len() * steps_per_rotation(p.speed_ms),
    decreases k,
{
    let s = steps_per_rotation(p.speed_ms);
    let here = lit_steps_below(pixel, p.length as int, p.clockwise, k as int);
    if k == 0 {
        assert(here =~= Set::empty());
        assert(0 * s == 0) by (nonlinear_arith);
    } else {
        let before = lit_steps_below(pixel, p.length as int, p.clockwise, k - 1);
        lemma_lit_ticks_by_steps(pixel, p, (k - 1) as nat);
        lemma_lit_ticks_in_step(pixel, p, (k - 1) as nat, s as nat);
        assert((k - 1) * s + s == k * s) by (nonlinear_arith);
        if chase_lit(pixel, k - 1, p.length as int, p.clockwise) {
            assert(here =~= before.insert(k - 1));
            assert((before.len() + 1) * s == before.len() * s + s) by (nonlinear_arith);
        } else {
            assert(here =~= before);
        }
    }
}

/// Over one full rotation of `12 * steps_per_rotation` ticks, every pixel is lit on
/// exactly `length * steps_per_rotation` ticks: `length` steps of the rotation, each
/// held for `steps_per_rotation` ticks.
pub proof fn lemma_chase_rotation_ticks(pixel: int, p: ChasePattern)
    requires
        0 <= pixel < 12,
        p.length <= 12,
    ensures
        lit_ticks(pixel, p, rotation_ticks(p.speed_ms) as nat) == p.length * steps_per_rotation(p.speed_ms),
{
    let s = steps_per_rotation(p.speed_ms);
    lemma_lit_ticks_by_steps(pixel, p, 12);
    lemma_chase_rotation_coverage(pixel, p.length as int, p.clockwise);
    assert(lit_steps_below(pixel, p.length as int, p.clockwise, 12) =~= chase_steps_lighting(
        pixel,
        p.length as int,
        p.clockwise,
    ));
    assert(12 * s == rotation_ticks(p.speed_ms));
}

proof fn lemma_chase_counter(s: PatternState, p: ChasePattern, n: nat)
    requires
        s.position < rotation_ticks(p.speed_ms),
    ensures
        advanced_n(s, Mode::Chase(p), n) == (PatternState {
            position: ((s.position + n) % rotation_ticks(p.speed_ms)) as u32,
            ..s
        }),
    decreases n,
{
    let t = rotation_ticks(p.speed_ms);
    if n == 0 {
        vstd::arithmetic::div_mod::lemma_small_mod(s.position as nat, t as nat);
    } else {
        lemma_chase_counter(s, p, (n - 1) as nat);
        vstd::arithmetic::div_mod::lemma_add_mod_noop(s.position + n - 1, 1, t);
        vstd::arithmetic::div_mod::lemma_small_mod(1, t as nat);
        vstd::arithmetic::div_mod::lemma_mod_twice(s.position + n - 1, t);
    }
}

/// The chase advances one step every `steps_per_rotation` ticks and, after one full
/// rotation of `12 * steps_per_rotation` ticks, is back where it started.
pub proof fn lemma_chase_rotation_period(s: PatternState, p: ChasePattern)
    requires
        s.position < rotation_ticks(p.speed_ms),
    ensures
        chase_step(advanced_n(s, Mode::Chase(p), steps_per_rotation(p.speed_ms) as nat).position as int, p.speed_ms)
            == (chase_step(s.position as int, p.speed_ms) + 1) % 12,
        advanced_n(s, Mode::Chase(p), rotation_ticks(p.speed_ms) as nat) == s,
{
    let k = steps_per_rotation(p.speed_ms);
    let t = rotation_ticks(p.speed_ms);
    let x = s.position as int;
    lemma_chase_counter(s, p, k as nat);
    lemma_chase_counter(s, p, t as nat);
    vstd::arithmetic::div_mod::lemma_mod_add_multiples_vanish(x, t);
    vstd::arithmetic::div_mod::lemma_small_mod(x as nat, t as nat);
    vstd::arithmetic::div_mod::lemma_div_plus_one(x, k);
    let next = (x + k) % t;
    if x + k < t {
        vstd::arithmetic::div_mod::lemma_small_mod((x + k) as nat, t as nat);
        vstd::arithmetic::div_mod::lemma_div_is_ordered(x + k, 12 * k - 1, k);
        vstd::arithmetic::div_mod::lemma_div_multiples_vanish_fancy(11, k - 1, k);
        assert(k * 11 + (k - 1) == 12 * k - 1);
        vstd::arithmetic::div_mod::lemma_small_mod((x / k) as nat, 12);
        vstd::arithmetic::div_mod::lemma_small_mod((x / k + 1) as nat, 12);
    } else {
        vstd::arithmetic::div_mod::lemma_mod_sub_multiples_vanish(x + k, t);
        vstd::arithmetic::div_mod::lemma_small_mod((x + k - t) as nat, t as nat);
        vstd::arithmetic::div_mod::lemma_div_multiples_vanish_fancy(11, x - 11 * k, k);
        assert(k * 11 + (x - 11 * k) == x);
        vstd::arithmetic::div_mod::lemma_div_multiples_vanish_fancy(0, next, k);
        assert(k * 0 + next == next);
    }
}

proof fn lemma_pulse_counter(s: PatternState, p: PulsePattern, n: nat)
    requires
        p.period_ms > 0,
        s.pulse_phase < p.period_ms,
    ensures
        advanced_n(s, Mode::Pulse(p), n) == (PatternState {
            pulse_phase: ((s.pulse_phase + 10 * n) % (p.period_ms as int)) as u16,
            ..s
        }),
    decreases n,
{
    let t = p.period_ms as int;
    if n == 0 {
        vstd::arithmetic::div_mod::lemma_small_mod(s.pulse_phase as nat, t as nat);
    } else {
        lemma_pulse_counter(s, p, (n - 1) as nat);
        let before = s.pulse_phase + 10 * (n - 1);
        vstd::arithmetic::div_mod::lemma_add_mod_noop(before, 10, t);
        vstd::arithmetic::div_mod::lemma_add_mod_noop(before % t, 10, t);
        vstd::arithmetic::div_mod::lemma_mod_twice(before, t);
    }
}

/// The pulse brightness always lies between the two configured levels, and a pulse
/// whose period is a whole number of ticks repeats every `period_ms / 10` ticks.
pub proof fn lemma_pulse_laws(s: PatternState, p: PulsePattern, wave: u16)
    ensures
        p.min_brightness <= p.max_brightness ==> p.min_brightness <= pulse_level(p.min_brightness, p.max_brightness, wave) <= p.max_brightness,
        p.max_brightness < p.min_brightness ==> p.max_brightness <= pulse_level(p.min_brightness, p.max_brightness, wave) <= p.min_brightness,
        p.period_ms > 0 && p.period_ms % 10 == 0 && s.pulse_phase < p.period_ms
            ==> advanced_n(s, Mode::Pulse(p), (p.period_ms / 10) as nat) == s,
{
    let lo = p.min_brightness;
    let hi = p.max_brightness;
    if lo <= hi {
        let d = hi - lo;
        assert(0 <= d * wave <= d * 65535) by (nonlinear_arith)
            requires wave <= 65535, d >= 0;
        vstd::arithmetic::div_mod::lemma_div_is_ordered(d * wave, d * 65535, 65535);
        vstd::arithmetic::div_mod::lemma_div_multiples_vanish(d as int, 65535);
    } else {
        let d = lo - hi;
        assert(0 <= d * wave <= d * 65535) by (nonlinear_arith)
            requires wave <= 65535, d >= 0;
        vstd::arithmetic::div_mod::lemma_div_is_ordered(d * wave, d * 65535, 65535);
        vstd::arithmetic::div_mod::lemma_div_multiples_vanish(d as int, 65535);
    }
    if p.period_ms > 0 && p.period_ms % 10 == 0 && s.pulse_phase < p.period_ms {
        let n = (p.period_ms / 10) as nat;
        lemma_pulse_counter(s, p, n);
        assert(10 * n == p.period_ms);
        vstd::arithmetic::div_mod::lemma_mod_add_multiples_vanish(s.pulse_phase as int, p.period_ms as int);
        vstd::arithmetic::div_mod::lemma_small_mod(s.pulse_phase as nat, p.period_ms as nat);
    }
}

} // verus!
