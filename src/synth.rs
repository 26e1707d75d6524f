//! Audio synthesis: tone buffers and the playback decisions of the speaker task.
//!
//! The speaker task loops: it reads the speakers' state, asks [`Player::step`] what to
//! do, does it (synthesizes and writes a buffer, then waits), and asks again. The sine
//! itself is computed by the caller and handed to [`render_tone`] in fixed point.

use crate::audio::{ChiptuneSequence, Mode as AudioMode, Note};
use crate::state::Speakers;
use vstd::prelude::*;

verus! {

/// Output sample rate in hertz.
pub const SAMPLE_RATE: u32 = 44100;

/// Capacity of the working buffer, in 16-bit samples (left and right interleaved).
pub const BUFFER_SAMPLES: usize = 8192;

/// Frames (left-right pairs) that fit in the working buffer.
pub const BUFFER_FRAMES: usize = 4096;

/// Length of the linear fade at each end of a tone, in frames.
pub const FADE_SAMPLES: usize = 220;

/// Largest sample magnitude; also the fixed-point scale of the sine handed to
/// [`render_tone`].
pub const MAX_AMPLITUDE: u16 = 32767;

/// How long the task waits after a buffer of silence.
pub const SILENCE_PAUSE_MS: u16 = 100;

/// Frames in `duration_ms` at [`SAMPLE_RATE`], rounded to the nearest frame.
pub open spec fn frames_for(duration_ms: u16) -> int {
    (44100 * duration_ms + 500) / 1000
}

/// Frames actually synthesized: longer tones are cut to the buffer.
pub open spec fn tone_frames(duration_ms: u16) -> int {
    if frames_for(duration_ms) <= 4096 {
        frames_for(duration_ms)
    } else {
        4096
    }
}

/// Envelope of frame `i` of `total`, in steps of `1 / fade`: rising from 0 over the
/// first `fade` frames, falling to 1 over the last ones, `fade` (full) in between.
pub open spec fn envelope(i: int, total: int, fade: int) -> int {
    if i < fade {
        i
    } else if i > (if total >= fade { total - fade } else { 0 }) {
        total - i
    } else {
        fade
    }
}

/// `maxAmplitude · note_volume/255 · master_volume/255 · ½`, truncated.
pub open spec fn amplitude(note_volume: u8, master_volume: u8) -> int {
    32767 * note_volume * master_volume / 130050int
}

/// One output sample: sine level `wave` (scaled by [`MAX_AMPLITUDE`]) times
/// `amplitude` times the envelope `env / FADE_SAMPLES`, truncated towards zero.
pub open spec fn sample(wave: i16, amp: u16, env: int) -> int {
    if wave >= 0 {
        (wave * amp * env) / (32767int * 220)
    } else {
        -(((-wave) * amp * env) / (32767int * 220))
    }
}

/// Sample `k` of the interleaved buffer of a tone: both channels of frame `k / 2`
/// carry the same value, and a rest is exact silence.
pub open spec fn tone_sample(frequency: u32, duration_ms: u16, amp: u16, wave: Seq<i16>, k: int) -> int {
    if frequency == 0 {
        0
    } else {
        sample(wave[k / 2], amp, envelope(k / 2, tone_frames(duration_ms), FADE_SAMPLES as int))
    }
}

/// Number of frames synthesized for a tone of `duration_ms`.
pub fn tone_frame_count(duration_ms: u16) -> (n: usize)
    ensures
        n == tone_frames(duration_ms),
{
    let frames: u64 = (44100 * duration_ms as u64 + 500) / 1000;
    if frames <= BUFFER_FRAMES as u64 {
        frames as usize
    } else {
        BUFFER_FRAMES
    }
}

/// Envelope numerator of frame `sample_index` of `total_samples`, over `fade_samples`.
pub fn calculate_envelope(sample_index: usize, total_samples: usize, fade_samples: usize) -> (e: usize)
    requires
        sample_index < total_samples,
    ensures
        e == envelope(sample_index as int, total_samples as int, fade_samples as int),
        e <= fade_samples,
{
    if sample_index < fade_samples {
        sample_index
    } else if sample_index > total_samples.saturating_sub(fade_samples) {
        total_samples - sample_index
    } else {
        fade_samples
    }
}

/// Amplitude of a note at `note_volume` under master volume `master_volume`.
pub fn note_amplitude(note_volume: u8, master_volume: u8) -> (a: u16)
    ensures
        a == amplitude(note_volume, master_volume),
        a <= 16383,
{
    proof {
        assert(note_volume * master_volume <= 65025) by (nonlinear_arith)
            requires note_volume <= 255, master_volume <= 255;
    }
    let v: u64 = note_volume as u64 * master_volume as u64;
    proof {
        assert(32767 * note_volume * master_volume == 32767 * v) by (nonlinear_arith)
            requires v == note_volume * master_volume;
        assert(32767 * v <= 32767 * 65025) by (nonlinear_arith)
            requires v <= 65025;
        vstd::arithmetic::div_mod::lemma_div_is_ordered(32767 * v, 32767int * 65025, 130050int);
    }
    (32767 * v / 130050) as u16
}

fn synth_sample(wave: i16, amp: u16, env: usize) -> (s: i16)
    requires
        amp <= 32767,
        env <= 220,
    ensures
        s == sample(wave, amp, env as int),
{
    let magnitude: u64 = if wave >= 0 { wave as u64 } else { (-(wave as i32)) as u64 };
    proof {
        assert(magnitude * amp <= 32768 * 32767) by (nonlinear_arith)
            requires magnitude <= 32768, amp <= 32767;
        assert(magnitude * amp * env <= 32768 * 32767 * 220) by (nonlinear_arith)
            requires magnitude * amp <= 32768 * 32767, env <= 220;
        assert(magnitude * amp * env <= 32768 * 32767 * 220) by (nonlinear_arith)
            requires magnitude <= 32768, amp <= 32767, env <= 220;
        vstd::arithmetic::div_mod::lemma_div_is_ordered(magnitude * amp * env, 32768int * 32767 * 220, 32767int * 220);
        vstd::arithmetic::div_mod::lemma_div_multiples_vanish(32768int, 32767int * 220);
        if wave >= 0 {
            assert(magnitude * amp * env <= 32767 * 32767 * 220) by (nonlinear_arith)
                requires magnitude <= 32767, amp <= 32767, env <= 220;
            vstd::arithmetic::div_mod::lemma_div_is_ordered(magnitude * amp * env, 32767int * 32767 * 220, 32767int * 220);
            vstd::arithmetic::div_mod::lemma_div_multiples_vanish(32767int, 32767int * 220);
        }
        assert(magnitude * amp * env == magnitude * (amp * env)) by (nonlinear_arith);
    }
    let scaled: u64 = magnitude * amp as u64 * env as u64 / (32767 * 220);
    if wave >= 0 {
        scaled as i16
    } else {
        (-(scaled as i32)) as i16
    }
}

/// Fills the front of `buffer` with one tone and returns how many samples it used.
///
/// For a rest (`frequency == 0`) the samples are zero. Otherwise `wave[i]` is the sine
/// of frame `i`, `sin(2π·frequency·i / SAMPLE_RATE)`, scaled by [`MAX_AMPLITUDE`];
/// each frame is shaped by the envelope and written to both channels. Samples past
/// the returned length are left as they were.
pub fn render_tone(frequency: u32, duration_ms: u16, amplitude: u16, wave: &[i16], buffer: &mut [i16; 8192]) -> (len: usize)
    requires
        amplitude <= MAX_AMPLITUDE,
        frequency > 0 ==> wave@.len() >= tone_frames(duration_ms),
    ensures
        len == 2 * tone_frames(duration_ms),
        forall|k: int| 0 <= k < len ==> final(buffer)[k] == tone_sample(frequency, duration_ms, amplitude, wave@, k),
        forall|k: int| len <= k < 8192 ==> final(buffer)[k] == old(buffer)[k],
{
    let frames = tone_frame_count(duration_ms);
    let mut i: usize = 0;
    while i < frames
        invariant
            i <= frames,
            frames == tone_frames(duration_ms),
            frames <= 4096,
            amplitude <= MAX_AMPLITUDE,
            frequency > 0 ==> wave@.len() >= frames,
            forall|k: int| 0 <= k < 2 * i ==> buffer[k] == tone_sample(frequency, duration_ms, amplitude, wave@, k),
            forall|k: int| 2 * frames <= k < 8192 ==> buffer[k] == old(buffer)[k],
        decreases frames - i,
    {
        let value: i16 = if frequency == 0 {
            0
        } else {
            let env = calculate_envelope(i, frames, FADE_SAMPLES);
            synth_sample(wave[i], amplitude, env)
        };
        buffer[2 * i] = value;
        buffer[2 * i + 1] = value;
        assert((2 * i) / 2 == i as int);
        assert((2 * i + 1) / 2 == i as int);
        i += 1;
    }
    2 * frames
}

/// What the speaker task does next.
#[derive(Debug, Clone, Copy, PartialEq, Eq, Structural)]
pub enum Action {
    /// Write a buffer of silence, then wait `pause_ms`.
    Silence { pause_ms: u16 },
    /// Synthesize the tone with [`render_tone`], write it, then wait `duration_ms`.
    Tone { frequency: u32, duration_ms: u16, amplitude: u16 },
    /// The mode asks for raw clip playback, which this engine does not do; wait
    /// `pause_ms` and ask again.
    Unsupported { pause_ms: u16 },
}

/// A chiptune in progress.
#[derive(Debug, Clone, Copy)]
pub struct Playback {
    /// The melody, as it was in the mode when playback started.
    pub sequence: ChiptuneSequence,
    /// Master volume read when playback started.
    pub master_volume: u8,
    /// Index of the next note to play.
    pub next: u8,
}

/// Playback decisions of the speaker task: which note of which melody comes next.
#[derive(Debug, Clone, Copy)]
pub struct Player {
    pub playing: Option<Playback>,
}

/// The tone for note `i` of `s` under `master` volume.
pub open spec fn note_action(s: ChiptuneSequence, i: int, master: u8) -> Action {
    Action::Tone {
        frequency: s.notes[i].frequency,
        duration_ms: s.notes[i].duration_ms,
        amplitude: amplitude(
            match s.notes[i].volume {
                Some(v) => v,
                None => s.default_volume,
            },
            master,
        ) as u16,
    }
}

/// What a freshly read speakers' state asks for, with nothing in progress.
pub open spec fn dispatch(sp: Speakers) -> (Player, Action) {
    match sp.mode {
        AudioMode::Silent => (Player { playing: None }, Action::Silence { pause_ms: SILENCE_PAUSE_MS }),
        AudioMode::Tone(n) => (
            Player { playing: None },
            Action::Tone {
                frequency: n.frequency,
                duration_ms: n.duration_ms,
                amplitude: amplitude(
                    match n.volume {
                        Some(v) => v,
                        None => sp.volume,
                    },
                    255,
                ) as u16,
            },
        ),
        AudioMode::Chiptune(s) => if s.active_len() > 0 {
            (
                Player { playing: Some(Playback { sequence: s, master_volume: sp.volume, next: 1 }) },
                note_action(s, 0, sp.volume),
            )
        } else {
            (Player { playing: None }, Action::Silence { pause_ms: SILENCE_PAUSE_MS })
        },
        AudioMode::Audio(_) => (Player { playing: None }, Action::Unsupported { pause_ms: SILENCE_PAUSE_MS }),
    }
}

/// One decision: go on with the melody in progress while the mode still asks for it
/// (from the first note again once a looping melody ends), else act on the mode as
/// it now is.
pub open spec fn next_step(p: Player, sp: Speakers) -> (Player, Action) {
    match p.playing {
        Some(pb) => if sp.mode == AudioMode::Chiptune(pb.sequence) {
            if (pb.next as int) < pb.sequence.active_len() {
                (
                    Player { playing: Some(Playback { next: (pb.next + 1) as u8, ..pb }) },
                    note_action(pb.sequence, pb.next as int, pb.master_volume),
                )
            } else if pb.sequence.looping && pb.sequence.active_len() > 0 {
                (
                    Player { playing: Some(Playback { next: 1, ..pb }) },
                    note_action(pb.sequence, 0, pb.master_volume),
                )
            } else {
                dispatch(sp)
            }
        } else {
            dispatch(sp)
        },
        None => dispatch(sp),
    }
}

fn resolved_volume(volume: Option<u8>, fallback: u8) -> (v: u8)
    ensures
        v == (match volume {
            Some(v) => v,
            None => fallback,
        }),
{
    match volume {
        Some(v) => v,
        None => fallback,
    }
}

fn play_note(s: &ChiptuneSequence, i: u8, master: u8) -> (a: Action)
    requires
        i < 64,
    ensures
        a == note_action(*s, i as int, master),
{
    let note: Note = s.notes[i as usize];
    Action::Tone {
        frequency: note.frequency,
        duration_ms: note.duration_ms,
        amplitude: note_amplitude(resolved_volume(note.volume, s.default_volume), master),
    }
}

fn active_length(s: &ChiptuneSequence) -> (n: u8)
    ensures
        n == s.active_len(),
{
    if s.length <= 64 {
        s.length
    } else {
        64
    }
}

impl Player {
    /// Nothing in progress.
    pub fn new() -> (p: Player)
        ensures
            p.playing is None,
    {
        Player { playing: None }
    }

    fn start(&mut self, speakers: &Speakers) -> (a: Action)
        ensures
            (*final(self), a) == dispatch(*speakers),
    {
        match &speakers.mode {
            AudioMode::Silent => {
                self.playing = None;
                Action::Silence { pause_ms: SILENCE_PAUSE_MS }
            },
            AudioMode::Tone(n) => {
                self.playing = None;
                Action::Tone {
                    frequency: n.frequency,
                    duration_ms: n.duration_ms,
                    amplitude: note_amplitude(resolved_volume(n.volume, speakers.volume), 255),
                }
            },
            AudioMode::Chiptune(s) => {
                if active_length(s) > 0 {
                    self.playing = Some(Playback { sequence: *s, master_volume: speakers.volume, next: 1 });
                    play_note(s, 0, speakers.volume)
                } else {
                    self.playing = None;
                    Action::Silence { pause_ms: SILENCE_PAUSE_MS }
                }
            },
            AudioMode::Audio(_) => {
                self.playing = None;
                Action::Unsupported { pause_ms: SILENCE_PAUSE_MS }
            },
        }
    }

    /// Decides what to play next, given the speakers' state as read now.
    pub fn step(&mut self, speakers: &Speakers) -> (a: Action)
        ensures
            (*final(self), a) == next_step(*old(self), *speakers),
    {
        match self.playing {
            Some(pb) => {
                let still = speakers.mode.eq(&AudioMode::Chiptune(pb.sequence));
                if still {
                    let n = active_length(&pb.sequence);
                    if pb.next < n {
                        self.playing = Some(Playback { next: pb.next + 1, ..pb });
                        play_note(&pb.sequence, pb.next, pb.master_volume)
                    } else if pb.sequence.looping && n > 0 {
                        self.playing = Some(Playback { next: 1, ..pb });
                        play_note(&pb.sequence, 0, pb.master_volume)
                    } else {
                        self.start(speakers)
                    }
                } else {
                    self.start(speakers)
                }
            },
            None => self.start(speakers),
        }
    }
}

/// The buffer of a tone holds `min(capacity, 2 · round(sampleRate · duration_ms / 1000))`
/// samples. Its envelope rises strictly over the first `fade` frames, and, when the
/// tone is at least two fades long, falls strictly over the last `fade` frames.
pub proof fn lemma_tone_shape(duration_ms: u16, total: int, fade: int, i: int, j: int)
    requires
        fade > 0,
        0 <= i < j < total,
    ensures
        2 * tone_frames(duration_ms) == (if 2 * frames_for(duration_ms) <= BUFFER_SAMPLES {
            2 * frames_for(duration_ms)
        } else {
            BUFFER_SAMPLES as int
        }),
        j < fade ==> envelope(i, total, fade) < envelope(j, total, fade),
        total >= 2 * fade && total - fade <= i ==> envelope(i, total, fade) > envelope(j, total, fade),
{
}

/// The player after `k` decisions, the speakers' state staying `sp`.
pub open spec fn run(p: Player, sp: Speakers, k: nat) -> Player
    decreases k,
{
    if k == 0 {
        p
    } else {
        next_step(run(p, sp, (k - 1) as nat), sp).0
    }
}

/// While the speakers keep asking for the same looping melody, playback goes round it
/// without end: after `k` more decisions the melody is still in progress, and the
/// note played next is the one `k` places on, wrapping to the first note after the
/// last.
pub proof fn lemma_looping_melody(p: Player, pb: Playback, sp: Speakers, k: nat)
    requires
        p.playing == Some(pb),
        sp.mode == AudioMode::Chiptune(pb.sequence),
        pb.sequence.looping,
        pb.sequence.active_len() > 0,
        1 <= pb.next <= pb.sequence.active_len(),
    ensures
        run(p, sp, k).playing == Some(
            Playback { next: ((pb.next - 1 + k) % pb.sequence.active_len() + 1) as u8, ..pb },
        ),
        next_step(run(p, sp, k), sp).1 == note_action(
            pb.sequence,
            (pb.next + k) % pb.sequence.active_len(),
            pb.master_volume,
        ),
    decreases k,
{
    let n = pb.sequence.active_len();
    if k == 0 {
        vstd::arithmetic::div_mod::lemma_small_mod((pb.next - 1) as nat, n as nat);
        assert(run(p, sp, k) == p);
    } else {
        lemma_looping_melody(p, pb, sp, (k - 1) as nat);
        lemma_mod_succ(pb.next - 1 + k - 1, n);
        assert(run(p, sp, k) == next_step(run(p, sp, (k - 1) as nat), sp).0);
        assert(pb.next - 1 + k - 1 + 1 == pb.next - 1 + k);
    }
    lemma_mod_succ(pb.next - 1 + k, n);
    assert(pb.next - 1 + k + 1 == pb.next + k);
}

proof fn lemma_mod_succ(x: int, n: int)
    requires
        x >= 0,
        n > 0,
    ensures
        0 <= x % n < n,
        (x + 1) % n == (if x % n + 1 < n { x % n + 1 } else { 0 }),
{
    let q = x / n;
    let r = x % n;
    vstd::arithmetic::div_mod::lemma_fundamental_div_mod(x, n);
    vstd::arithmetic::div_mod::lemma_mod_bound(x, n);
    if r + 1 < n {
        vstd::arithmetic::div_mod::lemma_fundamental_div_mod_converse(x + 1, n, q, r + 1);
    } else {
        assert(x + 1 == (q + 1) * n) by (nonlinear_arith)
            requires x == n * q + r, r + 1 == n;
        vstd::arithmetic::div_mod::lemma_fundamental_div_mod_converse(x + 1, n, q + 1, 0);
    }
}

/// A change of mode stops a melody at the next note boundary, so within one note's
/// duration: the decision taken there is what the new mode asks for from scratch.
pub proof fn lemma_mode_change_halts(p: Player, pb: Playback, sp: Speakers)
    requires
        p.playing == Some(pb),
        sp.mode != AudioMode::Chiptune(pb.sequence),
    ensures
        next_step(p, sp) == dispatch(sp),
{
}

} // verus!
