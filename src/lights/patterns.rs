//! Ready-made light modes for common effects.

use crate::color::{black, Color};
use crate::lights::{ChasePattern, LedPattern, Mode, PulsePattern, RainbowPattern};
use vstd::prelude::*;

verus! {

/// The color with these channels.
pub open spec fn rgb(r: u8, g: u8, b: u8) -> Color {
    Color { r, g, b }
}

/// Red chase over blue, like emergency lights.
pub fn police() -> (m: Mode)
    ensures
        m == Mode::Chase(
            ChasePattern { color: rgb(255, 0, 0), background: rgb(0, 0, 255), length: 6, speed_ms: 100, clockwise: true },
        ),
{
    Mode::Chase(ChasePattern::new(Color::new(255, 0, 0), 6, 100).with_background(Color::new(0, 0, 255)))
}

/// Slow white breathing.
pub fn breathing() -> (m: Mode)
    ensures
        m == Mode::Pulse(
            PulsePattern { color: rgb(255, 255, 255), min_brightness: 20, max_brightness: 255, period_ms: 3000 },
        ),
{
    Mode::Pulse(PulsePattern::new(Color::new(255, 255, 255), 3000).with_brightness_range(20, 255))
}

/// Fast spread rainbow.
pub fn party() -> (m: Mode)
    ensures
        m == Mode::Rainbow(RainbowPattern { speed_ms: 50, spread: true, brightness: 255 }),
{
    Mode::Rainbow(RainbowPattern::new(50))
}

/// Quick red pulse.
pub fn alert() -> (m: Mode)
    ensures
        m == Mode::Pulse(PulsePattern { color: rgb(255, 0, 0), min_brightness: 0, max_brightness: 255, period_ms: 500 }),
{
    Mode::Pulse(PulsePattern::new(Color::new(255, 0, 0), 500))
}

/// Green pulse.
pub fn success() -> (m: Mode)
    ensures
        m == Mode::Pulse(
            PulsePattern { color: rgb(0, 255, 0), min_brightness: 50, max_brightness: 255, period_ms: 1000 },
        ),
{
    Mode::Pulse(PulsePattern::new(Color::new(0, 255, 0), 1000).with_brightness_range(50, 255))
}

/// Short blue chase.
pub fn loading() -> (m: Mode)
    ensures
        m == Mode::Chase(
            ChasePattern { color: rgb(0, 100, 255), background: rgb(0, 0, 0), length: 3, speed_ms: 150, clockwise: true },
        ),
{
    Mode::Chase(ChasePattern::new(Color::new(0, 100, 255), 3, 150))
}

/// Two amber dots on opposite sides of the ring.
pub fn cat_eyes() -> (m: Mode)
    ensures
        m matches Mode::Custom(p) && !p.looping && p.leds[0] == rgb(255, 150, 0) && p.leds[6] == rgb(255, 150, 0)
            && forall|i: int| 0 <= i < 12 && i != 0 && i != 6 ==> p.leds[i] == black(),
{
    let mut pattern = LedPattern::new();
    pattern.leds[0] = Color::new(255, 150, 0);
    pattern.leds[6] = Color::new(255, 150, 0);
    Mode::Custom(pattern)
}

/// Soft blue pulse.
pub fn notification() -> (m: Mode)
    ensures
        m == Mode::Pulse(
            PulsePattern { color: rgb(0, 150, 255), min_brightness: 30, max_brightness: 200, period_ms: 2000 },
        ),
{
    Mode::Pulse(PulsePattern::new(Color::new(0, 150, 255), 2000).with_brightness_range(30, 200))
}

/// Red to orange gradient.
pub fn fire() -> (m: Mode)
    ensures
        m == Mode::Gradient(rgb(255, 0, 0), rgb(255, 150, 0)),
{
    Mode::Gradient(Color::new(255, 0, 0), Color::new(255, 150, 0))
}

/// Blue to cyan gradient.
pub fn ocean() -> (m: Mode)
    ensures
        m == Mode::Gradient(rgb(0, 0, 255), rgb(0, 255, 255)),
{
    Mode::Gradient(Color::new(0, 0, 255), Color::new(0, 255, 255))
}

} // verus!
