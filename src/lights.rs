//! Light modes for the two twelve-pixel LED rings.

use crate::color::Color;
use vstd::prelude::*;

pub mod patterns;

verus! {

/// What one LED ring shows.
#[derive(Debug, Clone, Copy, Default)]
pub enum Mode {
    /// All pixels off.
    #[default]
    Off,
    /// Every pixel the same color.
    Solid(Color),
    /// An eleven-step linear blend from the first color to the second.
    Gradient(Color, Color),
    /// A segment of lit pixels rotating around the ring.
    Chase(ChasePattern),
    /// The whole ring breathing along a sine wave.
    Pulse(PulsePattern),
    /// Hues cycling over time, spread around the ring or shared by all pixels.
    Rainbow(RainbowPattern),
    /// One color per pixel.
    Custom(LedPattern),
}

/// A lit segment rotating over a background.
#[derive(Debug, Clone, Copy, PartialEq, Eq, Structural)]
pub struct ChasePattern {
    /// Color of the lit segment.
    pub color: Color,
    /// Color of the pixels outside the segment.
    pub background: Color,
    /// Number of pixels in the segment; twelve or more lights the whole ring.
    pub length: u8,
    /// Milliseconds the segment rests on each step.
    pub speed_ms: u16,
    /// Direction of rotation.
    pub clockwise: bool,
}

impl ChasePattern {
    /// A clockwise chase over a black background.
    pub fn new(color: Color, length: u8, speed_ms: u16) -> (p: ChasePattern)
        ensures
            p == (ChasePattern {
                color,
                background: Color { r: 0, g: 0, b: 0 },
                length,
                speed_ms,
                clockwise: true,
            }),
    {
        ChasePattern { color, background: Color::black(), length, speed_ms, clockwise: true }
    }

    /// The same chase over another background.
    pub fn with_background(self, background: Color) -> (p: ChasePattern)
        ensures
            p == (ChasePattern { background, ..self }),
    {
        ChasePattern { background, ..self }
    }

    /// The same chase rotating the other way.
    pub fn counter_clockwise(self) -> (p: ChasePattern)
        ensures
            p == (ChasePattern { clockwise: false, ..self }),
    {
        ChasePattern { clockwise: false, ..self }
    }
}

/// A breathing effect between two brightness levels.
#[derive(Debug, Clone, Copy, PartialEq, Eq, Structural)]
pub struct PulsePattern {
    pub color: Color,
    /// Brightness at the bottom of the wave.
    pub min_brightness: u8,
    /// Brightness at the top of the wave.
    pub max_brightness: u8,
    /// Length of one full breath in milliseconds.
    pub period_ms: u16,
}

impl PulsePattern {
    /// A pulse over the full brightness range.
    pub fn new(color: Color, period_ms: u16) -> (p: PulsePattern)
        ensures
            p == (PulsePattern { color, min_brightness: 0, max_brightness: 255, period_ms }),
    {
        PulsePattern { color, min_brightness: 0, max_brightness: 255, period_ms }
    }

    /// The same pulse between `min` and `max`.
    pub fn with_brightness_range(self, min: u8, max: u8) -> (p: PulsePattern)
        ensures
            p == (PulsePattern { min_brightness: min, max_brightness: max, ..self }),
    {
        PulsePattern { min_brightness: min, max_brightness: max, ..self }
    }
}

/// Hue cycling.
#[derive(Debug, Clone, Copy, PartialEq, Eq, Structural)]
pub struct RainbowPattern {
    /// Milliseconds per hue step.
    pub speed_ms: u16,
    /// Spread the hues around the ring (`true`) or give all pixels the same hue.
    pub spread: bool,
    /// HSV value of the generated colors.
    pub brightness: u8,
}

impl RainbowPattern {
    /// A spread rainbow at full brightness.
    pub fn new(speed_ms: u16) -> (p: RainbowPattern)
        ensures
            p == (RainbowPattern { speed_ms, spread: true, brightness: 255 }),
    {
        RainbowPattern { speed_ms, spread: true, brightness: 255 }
    }

    /// The same rainbow with one hue shared by all pixels.
    pub fn unified(self) -> (p: RainbowPattern)
        ensures
            p == (RainbowPattern { spread: false, ..self }),
    {
        RainbowPattern { spread: false, ..self }
    }

    /// The same rainbow at another brightness.
    pub fn with_brightness(self, brightness: u8) -> (p: RainbowPattern)
        ensures
            p == (RainbowPattern { brightness, ..self }),
    {
        RainbowPattern { brightness, ..self }
    }
}

/// One color for each pixel of a ring.
#[derive(Debug, Clone, Copy, Eq)]
pub struct LedPattern {
    pub leds: [Color; 12],
    /// Marks the pattern as part of an animation; the renderer does not read it.
    pub looping: bool,
}

impl LedPattern {
    /// All pixels off.
    pub fn new() -> (p: LedPattern)
        ensures
            forall|i: int| 0 <= i < 12 ==> p.leds[i] == crate::color::black(),
            !p.looping,
    {
        LedPattern { leds: [Color::black(); 12], looping: false }
    }

    /// A pattern holding exactly the twelve given colors.
    pub fn from_colors(colors: &[Color]) -> (p: LedPattern)
        requires
            colors@.len() == 12,
        ensures
            p.leds@ == colors@,
            !p.looping,
    {
        let mut p = LedPattern::new();
        let mut i: usize = 0;
        while i < 12
            invariant
                i <= 12,
                colors@.len() == 12,
                !p.looping,
                forall|j: int| 0 <= j < i ==> p.leds[j] == colors@[j],
            decreases 12 - i,
        {
            p.leds[i] = colors[i];
            i += 1;
        }
        assert(p.leds@ =~= colors@);
        p
    }

    /// The same pattern marked as looping.
    pub fn with_loop(self) -> (p: LedPattern)
        ensures
            p == (LedPattern { looping: true, ..self }),
    {
        LedPattern { looping: true, ..self }
    }
}

impl Default for LedPattern {
    fn default() -> (p: LedPattern)
        ensures
            forall|i: int| 0 <= i < 12 ==> p.leds[i] == crate::color::black(),
            !p.looping,
    {
        LedPattern::new()
    }
}

impl PartialEq for LedPattern {
    fn eq(&self, other: &LedPattern) -> (r: bool) {
        let mut i: usize = 0;
        while i < 12
            invariant
                i <= 12,
                forall|j: int| 0 <= j < i ==> self.leds[j] == other.leds[j],
            decreases 12 - i,
        {
            if self.leds[i] != other.leds[i] {
                return false;
            }
            i += 1;
        }
        proof {
            broadcast use vstd::array::axiom_array_ext_equal;

            assert(self.leds =~= other.leds);
        }
        self.looping == other.looping
    }
}

impl vstd::std_specs::cmp::PartialEqSpecImpl for LedPattern {
    open spec fn obeys_eq_spec() -> bool {
        true
    }

    open spec fn eq_spec(&self, other: &LedPattern) -> bool {
        *self == *other
    }
}

impl PartialEq for Mode {
    fn eq(&self, other: &Mode) -> (r: bool) {
        match (self, other) {
            (Mode::Off, Mode::Off) => true,
            (Mode::Solid(a), Mode::Solid(b)) => *a == *b,
            (Mode::Gradient(a0, a1), Mode::Gradient(b0, b1)) => *a0 == *b0 && *a1 == *b1,
            (Mode::Chase(a), Mode::Chase(b)) => *a == *b,
            (Mode::Pulse(a), Mode::Pulse(b)) => *a == *b,
            (Mode::Rainbow(a), Mode::Rainbow(b)) => *a == *b,
            (Mode::Custom(a), Mode::Custom(b)) => a.eq(b),
            _ => false,
        }
    }
}

impl vstd::std_specs::cmp::PartialEqSpecImpl for Mode {
    open spec fn obeys_eq_spec() -> bool {
        true
    }

    open spec fn eq_spec(&self, other: &Mode) -> bool {
        *self == *other
    }
}

} // verus!
