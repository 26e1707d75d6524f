//! Audio data: notes, fixed-capacity chiptune sequences, raw clips and the speaker
//! modes built from them.

use vstd::prelude::*;

pub mod chiptunes;
pub mod clips;

verus! {

/// Most notes a [`ChiptuneSequence`] can hold.
pub const SEQUENCE_CAPACITY: usize = 64;

/// Volume of notes that do not carry their own, in a new sequence.
pub const DEFAULT_SEQUENCE_VOLUME: u8 = 128;

/// What the speakers play.
#[derive(Debug, Clone, Copy, Default)]
pub enum Mode {
    /// Nothing.
    #[default]
    Silent,
    /// One note, repeated while the mode stays.
    Tone(Note),
    /// A melody.
    Chiptune(ChiptuneSequence),
    /// Raw PCM playback; not supported by the synthesis engine.
    Audio(Clip),
}

/// Raw PCM audio compiled into the firmware.
#[derive(Debug, Clone, Copy)]
pub struct Clip {
    /// The samples, little-endian when 16 bits wide, channels interleaved.
    pub data: &'static [u8],
    /// Samples per second.
    pub sample_rate: u32,
    /// Bits per sample, 8 or 16.
    pub bits_per_sample: u8,
    /// Two interleaved channels (`true`) or one.
    pub is_stereo: bool,
    /// Start again after the last sample.
    pub looping: bool,
}

impl Clip {
    /// Bytes taken by one sample frame (all channels); zero below 8 bits per sample.
    pub open spec fn frame_bytes(&self) -> int {
        (self.bits_per_sample / 8) * (if self.is_stereo { 2int } else { 1int })
    }

    /// Whole sample frames in the data.
    pub open spec fn samples(&self) -> int {
        if self.frame_bytes() == 0 {
            0
        } else {
            self.data@.len() as int / self.frame_bytes()
        }
    }

    /// A non-looping clip.
    pub fn new(data: &'static [u8], sample_rate: u32, bits_per_sample: u8, is_stereo: bool) -> (c: Clip)
        ensures
            c == (Clip { data, sample_rate, bits_per_sample, is_stereo, looping: false }),
    {
        Clip { data, sample_rate, bits_per_sample, is_stereo, looping: false }
    }

    /// A non-looping mono clip of 8-bit samples.
    pub fn mono_8bit(data: &'static [u8], sample_rate: u32) -> (c: Clip)
        ensures
            c == (Clip { data, sample_rate, bits_per_sample: 8, is_stereo: false, looping: false }),
    {
        Clip::new(data, sample_rate, 8, false)
    }

    /// A non-looping mono clip of 16-bit samples.
    pub fn mono_16bit(data: &'static [u8], sample_rate: u32) -> (c: Clip)
        ensures
            c == (Clip { data, sample_rate, bits_per_sample: 16, is_stereo: false, looping: false }),
    {
        Clip::new(data, sample_rate, 16, false)
    }

    /// The same clip, looping.
    pub fn with_loop(self) -> (c: Clip)
        ensures
            c == (Clip { looping: true, ..self }),
    {
        Clip { looping: true, ..self }
    }

    /// Number of whole sample frames in the data.
    pub fn sample_count(&self) -> (n: u32)
        requires
            self.samples() <= u32::MAX,
        ensures
            n == self.samples(),
    {
        let bytes_per_sample: usize = (self.bits_per_sample / 8) as usize;
        let channels: usize = if self.is_stereo { 2 } else { 1 };
        let frame = bytes_per_sample * channels;
        if frame == 0 {
            0
        } else {
            (self.data.len() / frame) as u32
        }
    }

    /// Length of the clip in whole milliseconds.
    pub fn duration_ms(&self) -> (ms: u32)
        requires
            self.sample_rate > 0,
            self.samples() <= u32::MAX,
            self.samples() * 1000 / (self.sample_rate as int) <= u32::MAX,
        ensures
            ms == self.samples() * 1000 / (self.sample_rate as int),
    {
        let samples = self.sample_count() as u64;
        (samples * 1000 / self.sample_rate as u64) as u32
    }
}

impl PartialEq for Clip {
    fn eq(&self, other: &Clip) -> (r: bool) {
        if self.data.len() != other.data.len() {
            return false;
        }
        let mut i: usize = 0;
        while i < self.data.len()
            invariant
                i <= self.data@.len(),
                self.data@.len() == other.data@.len(),
                forall|j: int| 0 <= j < i ==> self.data@[j] == other.data@[j],
            decreases self.data@.len() - i,
        {
            if self.data[i] != other.data[i] {
                return false;
            }
            i += 1;
        }
        proof {
            broadcast use vstd::slice::axiom_slice_ext_equal;

            assert(self.data@ =~= other.data@);
            assert(self.data =~= other.data);
        }
        self.sample_rate == other.sample_rate && self.bits_per_sample == other.bits_per_sample
            && self.is_stereo == other.is_stereo && self.looping == other.looping
    }
}

impl vstd::std_specs::cmp::PartialEqSpecImpl for Clip {
    open spec fn obeys_eq_spec() -> bool {
        true
    }

    open spec fn eq_spec(&self, other: &Clip) -> bool {
        *self == *other
    }
}

/// One note of a melody.
#[derive(Debug, Clone, Copy, PartialEq, Eq, Structural)]
pub struct Note {
    /// Pitch in whole hertz; zero is a rest.
    pub frequency: u32,
    /// How long the note sounds.
    pub duration_ms: u16,
    /// Volume of this note, or `None` for the sequence's default.
    pub volume: Option<u8>,
}

impl Note {
    /// A note at the sequence's default volume.
    pub fn new(frequency: u32, duration_ms: u16) -> (n: Note)
        ensures
            n == (Note { frequency, duration_ms, volume: None }),
    {
        Note { frequency, duration_ms, volume: None }
    }

    /// A note with a volume of its own.
    pub fn with_volume(frequency: u32, duration_ms: u16, volume: u8) -> (n: Note)
        ensures
            n == (Note { frequency, duration_ms, volume: Some(volume) }),
    {
        Note { frequency, duration_ms, volume: Some(volume) }
    }

    /// Silence for `duration_ms`.
    pub fn rest(duration_ms: u16) -> (n: Note)
        ensures
            n == (Note { frequency: 0, duration_ms, volume: None }),
    {
        Note { frequency: 0, duration_ms, volume: None }
    }
}

/// Why a sequence could not be built.
#[derive(Debug, Clone, Copy, PartialEq, Eq, Structural)]
pub enum SequenceError {
    /// More notes were given than a sequence holds.
    TooManyNotes { count: usize },
}

/// A melody of at most [`SEQUENCE_CAPACITY`] notes in a fixed array.
///
/// Only the first `length` notes are played; the rest of the array is ignored.
#[derive(Debug, Clone, Copy, Eq)]
pub struct ChiptuneSequence {
    pub notes: [Note; 64],
    /// Number of notes in play; values above the capacity count as the capacity.
    pub length: u8,
    /// Volume of the notes that carry none.
    pub default_volume: u8,
    /// Play again from the first note after the last one.
    pub looping: bool,
}

impl ChiptuneSequence {
    /// How many notes are in play.
    pub open spec fn active_len(&self) -> int {
        if self.length <= 64 {
            self.length as int
        } else {
            64
        }
    }

    /// The notes in play, in order.
    pub open spec fn active(&self) -> Seq<Note> {
        self.notes@.subrange(0, self.active_len())
    }

    /// An empty sequence at the default volume, not looping.
    pub fn new() -> (s: ChiptuneSequence)
        ensures
            s.active() == Seq::<Note>::empty(),
            s.length == 0,
            s.default_volume == DEFAULT_SEQUENCE_VOLUME,
            !s.looping,
            forall|i: int| 0 <= i < 64 ==> s.notes[i] == (Note { frequency: 0, duration_ms: 0, volume: None }),
    {
        let s = ChiptuneSequence {
            notes: [Note::rest(0); 64],
            length: 0,
            default_volume: DEFAULT_SEQUENCE_VOLUME,
            looping: false,
        };
        assert(s.active() =~= Seq::<Note>::empty());
        s
    }

    pub(crate) fn filled(notes: &[Note]) -> (s: ChiptuneSequence)
        requires
            notes@.len() <= 64,
        ensures
            s.active() == notes@,
            s.length == notes@.len(),
            s.default_volume == DEFAULT_SEQUENCE_VOLUME,
            !s.looping,
            forall|i: int| notes@.len() <= i < 64 ==> s.notes[i] == (Note { frequency: 0, duration_ms: 0, volume: None }),
    {
        let mut s = ChiptuneSequence::new();
        let mut i: usize = 0;
        while i < notes.len()
            invariant
                i <= notes@.len() <= 64,
                s.length == 0,
                forall|j: int| i <= j < 64 ==> s.notes[j] == (Note { frequency: 0, duration_ms: 0, volume: None }),
                s.default_volume == DEFAULT_SEQUENCE_VOLUME,
                !s.looping,
                forall|j: int| 0 <= j < i ==> s.notes[j] == notes@[j],
            decreases notes@.len() - i,
        {
            s.notes[i] = notes[i];
            i += 1;
        }
        s.length = notes.len() as u8;
        assert(s.active() =~= notes@);
        s
    }

    /// A sequence playing exactly `notes`, or an error when there are more than
    /// [`SEQUENCE_CAPACITY`] of them; nothing is ever dropped.
    pub fn from_notes(notes: &[Note]) -> (r: Result<ChiptuneSequence, SequenceError>)
        ensures
            notes@.len() <= 64 <==> r is Ok,
            r matches Ok(s) ==> s.active() == notes@ && s.length == notes@.len()
                && s.default_volume == DEFAULT_SEQUENCE_VOLUME && !s.looping,
            r matches Err(e) ==> e == (SequenceError::TooManyNotes { count: notes@.len() as usize }),
    {
        if notes.len() > SEQUENCE_CAPACITY {
            Err(SequenceError::TooManyNotes { count: notes.len() })
        } else {
            Ok(ChiptuneSequence::filled(notes))
        }
    }

    /// The same sequence with another default volume.
    pub fn with_volume(self, volume: u8) -> (s: ChiptuneSequence)
        ensures
            s == (ChiptuneSequence { default_volume: volume, ..self }),
    {
        ChiptuneSequence { default_volume: volume, ..self }
    }

    /// The same sequence, looping.
    pub fn with_loop(self) -> (s: ChiptuneSequence)
        ensures
            s == (ChiptuneSequence { looping: true, ..self }),
    {
        ChiptuneSequence { looping: true, ..self }
    }
}

impl Default for ChiptuneSequence {
    fn default() -> (s: ChiptuneSequence)
        ensures
            s.active() == Seq::<Note>::empty(),
            s.default_volume == DEFAULT_SEQUENCE_VOLUME,
            !s.looping,
    {
        ChiptuneSequence::new()
    }
}

impl PartialEq for ChiptuneSequence {
    fn eq(&self, other: &ChiptuneSequence) -> (r: bool) {
        let mut i: usize = 0;
        while i < 64
            invariant
                i <= 64,
                forall|j: int| 0 <= j < i ==> self.notes[j] == other.notes[j],
            decreases 64 - i,
        {
            if self.notes[i] != other.notes[i] {
                return false;
            }
            i += 1;
        }
        proof {
            broadcast use vstd::array::axiom_array_ext_equal;

            assert(self.notes =~= other.notes);
        }
        self.length == other.length && self.default_volume == other.default_volume
            && self.looping == other.looping
    }
}

impl vstd::std_specs::cmp::PartialEqSpecImpl for ChiptuneSequence {
    open spec fn obeys_eq_spec() -> bool {
        true
    }

    open spec fn eq_spec(&self, other: &ChiptuneSequence) -> bool {
        *self == *other
    }
}

impl PartialEq for Mode {
    fn eq(&self, other: &Mode) -> (r: bool) {
        match (self, other) {
            (Mode::Silent, Mode::Silent) => true,
            (Mode::Tone(a), Mode::Tone(b)) => *a == *b,
            (Mode::Chiptune(a), Mode::Chiptune(b)) => a.eq(b),
            (Mode::Audio(a), Mode::Audio(b)) => a.eq(b),
            _ => false,
        }
    }
}

impl vstd::std_specs::cmp::PartialEqSpecImpl for Mode {
    open spec fn obeys_eq_spec() -> bool {
        true
    }

    open spec fn eq_spec(&self, other: &Mode) -> bool {
        *self == *other
    }
}

} // verus!
