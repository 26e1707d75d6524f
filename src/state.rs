//! The shared device state: the one value that writers replace and render loops read.
//!
//! Writers never edit the shared value in place. They copy it, change the copy, and
//! hand the copy to [`commit`], which says whether and what to store: the whole
//! proposed value, or nothing. A reader therefore always sees the state of exactly
//! one write.

use crate::audio::Mode as AudioMode;
use crate::color::Color;
use crate::lights::{Mode as LightMode, PulsePattern};
use vstd::prelude::*;

verus! {

/// Position both servos start at.
pub const CENTER_POSITION: u8 = 125;

/// Master volume at start-up.
pub const DEFAULT_VOLUME: u8 = 128;

/// Everything the device should be doing.
#[derive(Debug, Clone, Copy, Default)]
pub struct State {
    pub servos: Servos,
    pub lights: Lights,
    pub speakers: Speakers,
}

/// How one ear servo moves.
#[derive(Debug, Clone, Copy, PartialEq, Eq, Structural)]
pub enum ServoMode {
    /// Hold `0..=255` steady.
    Static(u8),
    /// Move between `min` and `max`, one way taking `speed_ms`.
    Sweep { min: u8, max: u8, speed_ms: u32 },
    /// Small movements around `center`, up to `amplitude` away, every `interval_ms` or so.
    Twitch { center: u8, amplitude: u8, interval_ms: u32 },
}

/// The two ear servos.
#[derive(Debug, Clone, Copy, PartialEq, Eq, Structural, Default)]
pub struct Servos {
    pub left: ServoMode,
    pub right: ServoMode,
}

/// The two LED rings and the brightness applied to both.
#[derive(Debug, Clone, Copy, Default)]
pub struct Lights {
    pub left: LightMode,
    pub right: LightMode,
    /// Global brightness, `0..=255`, scaling every pixel.
    pub brightness: u8,
}

/// The speakers.
#[derive(Debug, Clone, Copy, Default)]
pub struct Speakers {
    pub mode: AudioMode,
    /// Master volume, `0..=255`.
    pub volume: u8,
}

impl ServoMode {
    /// The position a servo rests at in this mode: the held position, the start of a
    /// sweep, or the center of a twitch.
    pub open spec fn resting(self) -> u8 {
        match self {
            ServoMode::Static(p) => p,
            ServoMode::Sweep { min, .. } => min,
            ServoMode::Twitch { center, .. } => center,
        }
    }

    /// The position a servo rests at in this mode.
    pub fn resting_position(&self) -> (p: u8)
        ensures
            p == self.resting(),
    {
        match self {
            ServoMode::Static(p) => *p,
            ServoMode::Sweep { min, .. } => *min,
            ServoMode::Twitch { center, .. } => *center,
        }
    }
}

impl Default for ServoMode {
    fn default() -> (m: ServoMode)
        ensures
            m == ServoMode::Static(CENTER_POSITION),
    {
        ServoMode::Static(CENTER_POSITION)
    }
}

impl Servos {
    /// Both servos held at the center.
    pub fn default_const() -> (s: Servos)
        ensures
            s == (Servos { left: ServoMode::Static(CENTER_POSITION), right: ServoMode::Static(CENTER_POSITION) }),
    {
        Servos { left: ServoMode::Static(CENTER_POSITION), right: ServoMode::Static(CENTER_POSITION) }
    }
}

/// The start-up light mode of each ring: a red pulse with a quarter-second period.
pub open spec fn startup_light() -> LightMode {
    LightMode::Pulse(
        PulsePattern { color: Color { r: 255, g: 0, b: 0 }, min_brightness: 0, max_brightness: 255, period_ms: 250 },
    )
}

impl Lights {
    /// Both rings pulsing red at full global brightness.
    pub fn default_const() -> (l: Lights)
        ensures
            l == (Lights { left: startup_light(), right: startup_light(), brightness: 255 }),
    {
        let pulse = LightMode::Pulse(PulsePattern::new(Color::new(255, 0, 0), 250));
        Lights { left: pulse, right: pulse, brightness: 255 }
    }
}

impl Speakers {
    /// Silent, at the default master volume.
    pub fn default_const() -> (s: Speakers)
        ensures
            s == (Speakers { mode: AudioMode::Silent, volume: DEFAULT_VOLUME }),
    {
        Speakers { mode: AudioMode::Silent, volume: DEFAULT_VOLUME }
    }
}

impl State {
    /// The state the device starts in.
    pub fn default_const() -> (s: State)
        ensures
            s == (State {
                servos: Servos { left: ServoMode::Static(CENTER_POSITION), right: ServoMode::Static(CENTER_POSITION) },
                lights: Lights { left: startup_light(), right: startup_light(), brightness: 255 },
                speakers: Speakers { mode: AudioMode::Silent, volume: DEFAULT_VOLUME },
            }),
    {
        State { servos: Servos::default_const(), lights: Lights::default_const(), speakers: Speakers::default_const() }
    }

    /// Every bounded field within its bounds: chase segments of at most twelve pixels
    /// and sequences of at most [`crate::audio::SEQUENCE_CAPACITY`] notes.
    pub open spec fn well_formed(&self) -> bool {
        light_well_formed(self.lights.left) && light_well_formed(self.lights.right)
            && audio_well_formed(self.speakers.mode)
    }

    /// Whether the state is [`State::well_formed`].
    pub fn is_well_formed(&self) -> (r: bool)
        ensures
            r == self.well_formed(),
    {
        light_mode_valid(&self.lights.left) && light_mode_valid(&self.lights.right)
            && audio_mode_valid(&self.speakers.mode)
    }
}

/// A chase segment is at most one ring long.
pub open spec fn light_well_formed(m: LightMode) -> bool {
    match m {
        LightMode::Chase(p) => p.length <= 12,
        _ => true,
    }
}

/// A melody holds at most [`crate::audio::SEQUENCE_CAPACITY`] notes.
pub open spec fn audio_well_formed(m: AudioMode) -> bool {
    match m {
        AudioMode::Chiptune(s) => s.length <= 64,
        _ => true,
    }
}

fn light_mode_valid(m: &LightMode) -> (r: bool)
    ensures
        r == light_well_formed(*m),
{
    match m {
        LightMode::Chase(p) => p.length <= 12,
        _ => true,
    }
}

fn audio_mode_valid(m: &AudioMode) -> (r: bool)
    ensures
        r == audio_well_formed(*m),
{
    match m {
        AudioMode::Chiptune(s) => s.length <= 64,
        _ => true,
    }
}

/// What a writer stores after preparing `proposed` from a copy of `current`: the whole
/// proposed state when it is well formed and differs from the state now stored, else
/// nothing (the stored state stays as it is, unchanged in every field).
pub fn commit(current: &State, proposed: &State) -> (r: Option<State>)
    ensures
        r == (if proposed.well_formed() && *proposed != *current {
            Some(*proposed)
        } else {
            None::<State>
        }),
{
    if proposed.is_well_formed() && !proposed.eq(current) {
        Some(*proposed)
    } else {
        None
    }
}

impl PartialEq for Lights {
    fn eq(&self, other: &Lights) -> (r: bool) {
        self.left.eq(&other.left) && self.right.eq(&other.right) && self.brightness == other.brightness
    }
}

impl vstd::std_specs::cmp::PartialEqSpecImpl for Lights {
    open spec fn obeys_eq_spec() -> bool {
        true
    }

    open spec fn eq_spec(&self, other: &Lights) -> bool {
        *self == *other
    }
}

impl PartialEq for Speakers {
    fn eq(&self, other: &Speakers) -> (r: bool) {
        self.mode.eq(&other.mode) && self.volume == other.volume
    }
}

impl vstd::std_specs::cmp::PartialEqSpecImpl for Speakers {
    open spec fn obeys_eq_spec() -> bool {
        true
    }

    open spec fn eq_spec(&self, other: &Speakers) -> bool {
        *self == *other
    }
}

impl PartialEq for State {
    fn eq(&self, other: &State) -> (r: bool) {
        self.servos == other.servos && self.lights.eq(&other.lights) && self.speakers.eq(&other.speakers)
    }
}

impl vstd::std_specs::cmp::PartialEqSpecImpl for State {
    open spec fn obeys_eq_spec() -> bool {
        true
    }

    open spec fn eq_spec(&self, other: &State) -> bool {
        *self == *other
    }
}

} // verus!
