//! Ready-made melodies for game events and UI feedback.

use crate::audio::{ChiptuneSequence, Note, DEFAULT_SEQUENCE_VOLUME};
use vstd::prelude::*;

verus! {

/// A note at the sequence's default volume, or a rest when `frequency` is zero.
pub open spec fn plain(frequency: u32, duration_ms: u16) -> Note {
    Note { frequency, duration_ms, volume: None }
}

/// `s` is the ready-made melody of `notes`: exactly those notes in play, the rest of
/// the array silent, at the default volume, played once.
pub open spec fn preset(s: ChiptuneSequence, notes: Seq<Note>) -> bool {
    &&& s.active() == notes
    &&& s.length == notes.len()
    &&& s.default_volume == DEFAULT_SEQUENCE_VOLUME
    &&& !s.looping
    &&& forall|i: int| notes.len() <= i < 64 ==> s.notes[i] == plain(0, 0)
}

/// The notes of [`coin_collect`].
pub open spec fn coin_collect_notes() -> Seq<Note> {
    seq![plain(988, 100), plain(1319, 400)]
}

/// Classic coin pickup: two rising notes.
pub fn coin_collect() -> (s: ChiptuneSequence)
    ensures
        preset(s, coin_collect_notes()),
{
    let notes = [Note::new(988, 100), Note::new(1319, 400)];
    let s = ChiptuneSequence::filled(&notes);
    assert(s.active() =~= coin_collect_notes());
    s
}

/// The notes of [`power_up`].
pub open spec fn power_up_notes() -> Seq<Note> {
    seq![plain(523, 100), plain(659, 100), plain(784, 100), plain(1047, 200)]
}

/// Power-up jingle: a rising major arpeggio.
pub fn power_up() -> (s: ChiptuneSequence)
    ensures
        preset(s, power_up_notes()),
{
    let notes = [Note::new(523, 100), Note::new(659, 100), Note::new(784, 100), Note::new(1047, 200)];
    let s = ChiptuneSequence::filled(&notes);
    assert(s.active() =~= power_up_notes());
    s
}

/// The notes of [`level_complete`].
pub open spec fn level_complete_notes() -> Seq<Note> {
    seq![plain(523, 150), plain(659, 150), plain(784, 150), plain(1047, 150), plain(784, 150), plain(1047, 400)]
}

/// Level-complete fanfare.
pub fn level_complete() -> (s: ChiptuneSequence)
    ensures
        preset(s, level_complete_notes()),
{
    let notes = [Note::new(523, 150), Note::new(659, 150), Note::new(784, 150), Note::new(1047, 150), Note::new(784, 150), Note::new(1047, 400)];
    let s = ChiptuneSequence::filled(&notes);
    assert(s.active() =~= level_complete_notes());
    s
}

/// The notes of [`game_over`].
pub open spec fn game_over_notes() -> Seq<Note> {
    seq![plain(523, 200), plain(494, 200), plain(466, 200), plain(440, 600)]
}

/// Game-over descent.
pub fn game_over() -> (s: ChiptuneSequence)
    ensures
        preset(s, game_over_notes()),
{
    let notes = [Note::new(523, 200), Note::new(494, 200), Note::new(466, 200), Note::new(440, 600)];
    let s = ChiptuneSequence::filled(&notes);
    assert(s.active() =~= game_over_notes());
    s
}

/// The notes of [`menu_select`].
pub open spec fn menu_select_notes() -> Seq<Note> {
    seq![plain(1047, 50), plain(1319, 50)]
}

/// Short menu-selection blip.
pub fn menu_select() -> (s: ChiptuneSequence)
    ensures
        preset(s, menu_select_notes()),
{
    let notes = [Note::new(1047, 50), Note::new(1319, 50)];
    let s = ChiptuneSequence::filled(&notes);
    assert(s.active() =~= menu_select_notes());
    s
}

/// The notes of [`alert`].
pub open spec fn alert_notes() -> Seq<Note> {
    seq![plain(880, 100), plain(0, 50), plain(880, 100)]
}

/// Two alert beeps with a rest between them.
pub fn alert() -> (s: ChiptuneSequence)
    ensures
        preset(s, alert_notes()),
{
    let notes = [Note::new(880, 100), Note::rest(50), Note::new(880, 100)];
    let s = ChiptuneSequence::filled(&notes);
    assert(s.active() =~= alert_notes());
    s
}

/// The notes of [`happy`].
pub open spec fn happy_notes() -> Seq<Note> {
    seq![plain(523, 150), plain(659, 150), plain(784, 150), plain(659, 150), plain(1047, 300)]
}

/// Cheerful melody for positive events.
pub fn happy() -> (s: ChiptuneSequence)
    ensures
        preset(s, happy_notes()),
{
    let notes = [Note::new(523, 150), Note::new(659, 150), Note::new(784, 150), Note::new(659, 150), Note::new(1047, 300)];
    let s = ChiptuneSequence::filled(&notes);
    assert(s.active() =~= happy_notes());
    s
}

/// The notes of [`sad`].
pub open spec fn sad_notes() -> Seq<Note> {
    seq![plain(440, 300), plain(415, 300), plain(392, 300), plain(349, 600)]
}

/// Minor-key descent for negative events.
pub fn sad() -> (s: ChiptuneSequence)
    ensures
        preset(s, sad_notes()),
{
    let notes = [Note::new(440, 300), Note::new(415, 300), Note::new(392, 300), Note::new(349, 600)];
    let s = ChiptuneSequence::filled(&notes);
    assert(s.active() =~= sad_notes());
    s
}

/// The notes of [`startup`].
pub open spec fn startup_notes() -> Seq<Note> {
    seq![plain(262, 100), plain(392, 100), plain(523, 100), plain(659, 100), plain(784, 200)]
}

/// Boot-up sound.
pub fn startup() -> (s: ChiptuneSequence)
    ensures
        preset(s, startup_notes()),
{
    let notes = [Note::new(262, 100), Note::new(392, 100), Note::new(523, 100), Note::new(659, 100), Note::new(784, 200)];
    let s = ChiptuneSequence::filled(&notes);
    assert(s.active() =~= startup_notes());
    s
}

/// The notes of [`shutdown`].
pub open spec fn shutdown_notes() -> Seq<Note> {
    seq![plain(784, 100), plain(659, 100), plain(523, 100), plain(392, 100), plain(262, 200)]
}

/// Shutdown sound.
pub fn shutdown() -> (s: ChiptuneSequence)
    ensures
        preset(s, shutdown_notes()),
{
    let notes = [Note::new(784, 100), Note::new(659, 100), Note::new(523, 100), Note::new(392, 100), Note::new(262, 200)];
    let s = ChiptuneSequence::filled(&notes);
    assert(s.active() =~= shutdown_notes());
    s
}

} // verus!
