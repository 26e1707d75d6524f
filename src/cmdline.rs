//! The text commands that change the device state, and what each one changes.
//!
//! A command line front end parses a line into a [`Command`], applies it with
//! [`apply`] to a private copy of the state, and stores the copy with
//! [`crate::state::commit`].

use crate::audio::chiptunes::{self, preset};
use crate::audio::{ChiptuneSequence, Mode as AudioMode, Note};
use crate::color::Color;
use crate::lights::{Mode as LightMode, PulsePattern, RainbowPattern};
use crate::state::{ServoMode, State};
use vstd::prelude::*;
use vstd::string::StringSliceAdditionalSpecFns;

verus! {

pub const WORD_LEFT: &'static str = "left";
pub const WORD_L: &'static str = "l";
pub const WORD_RIGHT: &'static str = "right";
pub const WORD_R: &'static str = "r";
pub const WORD_COIN: &'static str = "coin";
pub const WORD_POWERUP: &'static str = "powerup";
pub const WORD_LEVELCOMPLETE: &'static str = "levelcomplete";
pub const WORD_LEVEL: &'static str = "level";
pub const WORD_GAMEOVER: &'static str = "gameover";
pub const WORD_MENUSELECT: &'static str = "menuselect";
pub const WORD_MENU: &'static str = "menu";
pub const WORD_ALERT: &'static str = "alert";
pub const WORD_HAPPY: &'static str = "happy";
pub const WORD_SAD: &'static str = "sad";
pub const WORD_STARTUP: &'static str = "startup";
pub const WORD_SHUTDOWN: &'static str = "shutdown";

/// Period of the pulse set by [`Command::LightPulse`].
pub const COMMAND_PULSE_PERIOD_MS: u16 = 1000;

/// Speed of the rainbow set by [`Command::LightRainbow`].
pub const COMMAND_RAINBOW_SPEED_MS: u16 = 500;

/// The byte in lower case when it is an ASCII capital, else unchanged.
pub open spec fn ascii_lower(b: u8) -> u8 {
    if 65 <= b <= 90 {
        (b + 32) as u8
    } else {
        b
    }
}

/// Whether the bytes `arg` spell `word` (written in lower case), ignoring ASCII case.
pub open spec fn spells(arg: Seq<u8>, word: &str) -> bool {
    &&& arg.len() == word.spec_bytes().len()
    &&& forall|i: int| 0 <= i < arg.len() ==> ascii_lower(arg[i]) == word.spec_bytes()[i]
}

fn spells_word(arg: &str, word: &str) -> (r: bool)
    ensures
        r == spells(arg.spec_bytes(), word),
{
    let a = arg.as_bytes();
    let w = word.as_bytes();
    if a.len() != w.len() {
        return false;
    }
    let mut i: usize = 0;
    while i < a.len()
        invariant
            i <= a@.len() == w@.len(),
            a@ == arg.spec_bytes(),
            w@ == word.spec_bytes(),
            forall|j: int| 0 <= j < i ==> ascii_lower(a@[j]) == w@[j],
        decreases a@.len() - i,
    {
        let b = a[i];
        let lower: u8 = if 65 <= b && b <= 90 { b + 32 } else { b };
        if lower != w[i] {
            return false;
        }
        i += 1;
    }
    true
}

/// Which ear a command is about.
#[derive(Debug, Clone, Copy, PartialEq, Eq, Structural)]
pub enum Side {
    Left,
    Right,
}

/// The side an argument names: `left` or `l`, `right` or `r`, in any ASCII case.
pub open spec fn side_named(arg: Seq<u8>) -> Option<Side> {
    if spells(arg, WORD_LEFT) || spells(arg, WORD_L) {
        Some(Side::Left)
    } else if spells(arg, WORD_RIGHT) || spells(arg, WORD_R) {
        Some(Side::Right)
    } else {
        None
    }
}

impl Side {
    /// The side `arg` names, if any.
    pub fn from_arg(arg: &str) -> (r: Option<Side>)
        ensures
            r == side_named(arg.spec_bytes()),
    {
        if spells_word(arg, WORD_LEFT) || spells_word(arg, WORD_L) {
            Some(Side::Left)
        } else if spells_word(arg, WORD_RIGHT) || spells_word(arg, WORD_R) {
            Some(Side::Right)
        } else {
            None
        }
    }
}

/// The ready-made melodies a command can start.
#[derive(Debug, Clone, Copy, PartialEq, Eq, Structural)]
pub enum ChiptuneName {
    Coin,
    PowerUp,
    LevelComplete,
    GameOver,
    MenuSelect,
    Alert,
    Happy,
    Sad,
    Startup,
    Shutdown,
}

/// The melody an argument names, in any ASCII case.
pub open spec fn chiptune_named(arg: Seq<u8>) -> Option<ChiptuneName> {
    if spells(arg, WORD_COIN) {
        Some(ChiptuneName::Coin)
    } else if spells(arg, WORD_POWERUP) {
        Some(ChiptuneName::PowerUp)
    } else if spells(arg, WORD_LEVELCOMPLETE) || spells(arg, WORD_LEVEL) {
        Some(ChiptuneName::LevelComplete)
    } else if spells(arg, WORD_GAMEOVER) {
        Some(ChiptuneName::GameOver)
    } else if spells(arg, WORD_MENUSELECT) || spells(arg, WORD_MENU) {
        Some(ChiptuneName::MenuSelect)
    } else if spells(arg, WORD_ALERT) {
        Some(ChiptuneName::Alert)
    } else if spells(arg, WORD_HAPPY) {
        Some(ChiptuneName::Happy)
    } else if spells(arg, WORD_SAD) {
        Some(ChiptuneName::Sad)
    } else if spells(arg, WORD_STARTUP) {
        Some(ChiptuneName::Startup)
    } else if spells(arg, WORD_SHUTDOWN) {
        Some(ChiptuneName::Shutdown)
    } else {
        None
    }
}

impl ChiptuneName {
    /// The notes of the named melody.
    pub open spec fn notes(self) -> Seq<Note> {
        match self {
            ChiptuneName::Coin => chiptunes::coin_collect_notes(),
            ChiptuneName::PowerUp => chiptunes::power_up_notes(),
            ChiptuneName::LevelComplete => chiptunes::level_complete_notes(),
            ChiptuneName::GameOver => chiptunes::game_over_notes(),
            ChiptuneName::MenuSelect => chiptunes::menu_select_notes(),
            ChiptuneName::Alert => chiptunes::alert_notes(),
            ChiptuneName::Happy => chiptunes::happy_notes(),
            ChiptuneName::Sad => chiptunes::sad_notes(),
            ChiptuneName::Startup => chiptunes::startup_notes(),
            ChiptuneName::Shutdown => chiptunes::shutdown_notes(),
        }
    }

    /// The melody `arg` names, if any: `coin`, `powerup`, `levelcomplete` or `level`,
    /// `gameover`, `menuselect` or `menu`, `alert`, `happy`, `sad`, `startup`,
    /// `shutdown`.
    pub fn from_arg(arg: &str) -> (r: Option<ChiptuneName>)
        ensures
            r == chiptune_named(arg.spec_bytes()),
    {
        if spells_word(arg, WORD_COIN) {
            Some(ChiptuneName::Coin)
        } else if spells_word(arg, WORD_POWERUP) {
            Some(ChiptuneName::PowerUp)
        } else if spells_word(arg, WORD_LEVELCOMPLETE) || spells_word(arg, WORD_LEVEL) {
            Some(ChiptuneName::LevelComplete)
        } else if spells_word(arg, WORD_GAMEOVER) {
            Some(ChiptuneName::GameOver)
        } else if spells_word(arg, WORD_MENUSELECT) || spells_word(arg, WORD_MENU) {
            Some(ChiptuneName::MenuSelect)
        } else if spells_word(arg, WORD_ALERT) {
            Some(ChiptuneName::Alert)
        } else if spells_word(arg, WORD_HAPPY) {
            Some(ChiptuneName::Happy)
        } else if spells_word(arg, WORD_SAD) {
            Some(ChiptuneName::Sad)
        } else if spells_word(arg, WORD_STARTUP) {
            Some(ChiptuneName::Startup)
        } else if spells_word(arg, WORD_SHUTDOWN) {
            Some(ChiptuneName::Shutdown)
        } else {
            None
        }
    }

    /// The named melody.
    pub fn sequence(&self) -> (s: ChiptuneSequence)
        ensures
            preset(s, self.notes()),
    {
        match self {
            ChiptuneName::Coin => chiptunes::coin_collect(),
            ChiptuneName::PowerUp => chiptunes::power_up(),
            ChiptuneName::LevelComplete => chiptunes::level_complete(),
            ChiptuneName::GameOver => chiptunes::game_over(),
            ChiptuneName::MenuSelect => chiptunes::menu_select(),
            ChiptuneName::Alert => chiptunes::alert(),
            ChiptuneName::Happy => chiptunes::happy(),
            ChiptuneName::Sad => chiptunes::sad(),
            ChiptuneName::Startup => chiptunes::startup(),
            ChiptuneName::Shutdown => chiptunes::shutdown(),
        }
    }
}

/// A command that changes the state.
#[derive(Debug, Clone, Copy, PartialEq, Eq, Structural)]
pub enum Command {
    /// One ring to a solid color.
    LightSolid { side: Side, r: u8, g: u8, b: u8 },
    /// One ring off.
    LightOff { side: Side },
    /// One ring to a spread rainbow.
    LightRainbow { side: Side },
    /// One ring to a full-range pulse of a color.
    LightPulse { side: Side, r: u8, g: u8, b: u8 },
    /// The global brightness.
    Brightness { value: u8 },
    /// One servo to a fixed position.
    ServoSet { side: Side, value: u8 },
    /// The speakers to silence.
    AudioSilent,
    /// The speakers to a tone of `freq` hertz for `duration` milliseconds.
    AudioTone { freq: u16, duration: u16 },
    /// The speakers to a ready-made melody.
    AudioChiptune { name: ChiptuneName },
    /// The master volume.
    Volume { value: u8 },
}

/// `s` with the ring on `side` set to `m`.
pub open spec fn with_light(s: State, side: Side, m: LightMode) -> State {
    match side {
        Side::Left => State { lights: crate::state::Lights { left: m, ..s.lights }, ..s },
        Side::Right => State { lights: crate::state::Lights { right: m, ..s.lights }, ..s },
    }
}

/// `s` with the servo on `side` set to `m`.
pub open spec fn with_servo(s: State, side: Side, m: ServoMode) -> State {
    match side {
        Side::Left => State { servos: crate::state::Servos { left: m, ..s.servos }, ..s },
        Side::Right => State { servos: crate::state::Servos { right: m, ..s.servos }, ..s },
    }
}

/// `s` with the speakers' mode set to `m`.
pub open spec fn with_audio(s: State, m: AudioMode) -> State {
    State { speakers: crate::state::Speakers { mode: m, ..s.speakers }, ..s }
}

/// What `c` does: `after` is `before` with the one field the command is about set.
pub open spec fn command_effect(before: State, c: Command, after: State) -> bool {
    match c {
        Command::LightSolid { side, r, g, b } => after == with_light(before, side, LightMode::Solid(Color { r, g, b })),
        Command::LightOff { side } => after == with_light(before, side, LightMode::Off),
        Command::LightRainbow { side } => after == with_light(
            before,
            side,
            LightMode::Rainbow(RainbowPattern { speed_ms: COMMAND_RAINBOW_SPEED_MS, spread: true, brightness: 255 }),
        ),
        Command::LightPulse { side, r, g, b } => after == with_light(
            before,
            side,
            LightMode::Pulse(
                PulsePattern {
                    color: Color { r, g, b },
                    min_brightness: 0,
                    max_brightness: 255,
                    period_ms: COMMAND_PULSE_PERIOD_MS,
                },
            ),
        ),
        Command::Brightness { value } => after == (State {
            lights: crate::state::Lights { brightness: value, ..before.lights },
            ..before
        }),
        Command::ServoSet { side, value } => after == with_servo(before, side, ServoMode::Static(value)),
        Command::AudioSilent => after == with_audio(before, AudioMode::Silent),
        Command::AudioTone { freq, duration } => after == with_audio(
            before,
            AudioMode::Tone(Note { frequency: freq as u32, duration_ms: duration, volume: None }),
        ),
        Command::AudioChiptune { name } => {
            &&& after.servos == before.servos
            &&& after.lights == before.lights
            &&& after.speakers.volume == before.speakers.volume
            &&& after.speakers.mode matches AudioMode::Chiptune(s) && preset(s, name.notes())
        },
        Command::Volume { value } => after == (State {
            speakers: crate::state::Speakers { volume: value, ..before.speakers },
            ..before
        }),
    }
}

fn set_light(state: &mut State, side: Side, m: LightMode)
    ensures
        *final(state) == with_light(*old(state), side, m),
{
    match side {
        Side::Left => state.lights.left = m,
        Side::Right => state.lights.right = m,
    }
}

fn set_servo(state: &mut State, side: Side, m: ServoMode)
    ensures
        *final(state) == with_servo(*old(state), side, m),
{
    match side {
        Side::Left => state.servos.left = m,
        Side::Right => state.servos.right = m,
    }
}

/// Applies `command` to `state`.
pub fn apply(state: &mut State, command: &Command)
    ensures
        command_effect(*old(state), *command, *final(state)),
{
    match *command {
        Command::LightSolid { side, r, g, b } => set_light(state, side, LightMode::Solid(Color::new(r, g, b))),
        Command::LightOff { side } => set_light(state, side, LightMode::Off),
        Command::LightRainbow { side } => set_light(
            state,
            side,
            LightMode::Rainbow(RainbowPattern::new(COMMAND_RAINBOW_SPEED_MS)),
        ),
        Command::LightPulse { side, r, g, b } => set_light(
            state,
            side,
            LightMode::Pulse(PulsePattern::new(Color::new(r, g, b), COMMAND_PULSE_PERIOD_MS)),
        ),
        Command::Brightness { value } => state.lights.brightness = value,
        Command::ServoSet { side, value } => set_servo(state, side, ServoMode::Static(value)),
        Command::AudioSilent => state.speakers.mode = AudioMode::Silent,
        Command::AudioTone { freq, duration } => state.speakers.mode = AudioMode::Tone(Note::new(freq as u32, duration)),
        Command::AudioChiptune { name } => state.speakers.mode = AudioMode::Chiptune(name.sequence()),
        Command::Volume { value } => state.speakers.volume = value,
    }
}

} // verus!
