use catears::audio::chiptunes;
use catears::audio::clips;
use catears::audio::{ChiptuneSequence, Clip, Mode, Note, SequenceError};
use catears::state::Speakers;
use catears::synth::{
    calculate_envelope, note_amplitude, render_tone, tone_frame_count, Action, Player, BUFFER_SAMPLES, FADE_SAMPLES,
    MAX_AMPLITUDE,
};

fn sine(frequency: u32, frames: usize) -> Vec<i16> {
    (0..frames)
        .map(|i| {
            let phase = 2.0 * std::f64::consts::PI * frequency as f64 * i as f64 / 44100.0;
            (phase.sin() * MAX_AMPLITUDE as f64).round() as i16
        })
        .collect()
}

#[test]
fn sequence_of_sixty_five_notes_is_rejected() {
    let notes = vec![Note::new(440, 10); 65];
    assert_eq!(ChiptuneSequence::from_notes(&notes), Err(SequenceError::TooManyNotes { count: 65 }));
    let full = ChiptuneSequence::from_notes(&notes[..64]).unwrap();
    assert_eq!(full.length, 64);
    assert_eq!(full.notes[63], Note::new(440, 10));
}

#[test]
fn sequence_builders() {
    let s = ChiptuneSequence::from_notes(&[Note::new(262, 250), Note::rest(50), Note::with_volume(392, 500, 9)])
        .unwrap()
        .with_volume(200)
        .with_loop();
    assert_eq!(s.length, 3);
    assert_eq!(s.default_volume, 200);
    assert!(s.looping);
    assert_eq!(s.notes[1], Note { frequency: 0, duration_ms: 50, volume: None });
    assert_eq!(s.notes[2].volume, Some(9));
    assert_eq!(s.notes[3], Note::rest(0));
    let empty = ChiptuneSequence::default();
    assert_eq!(empty.length, 0);
    assert_eq!(empty.default_volume, 128);
    assert_eq!(empty, ChiptuneSequence::new());
}

#[test]
fn tone_buffer_length_is_capped() {
    // 44100 * 100 / 1000 = 4410 frames
    assert_eq!(tone_frame_count(100), 4096);
    // 44100 * 50 / 1000 = 2205 frames
    assert_eq!(tone_frame_count(50), 2205);
    // 44100 * 7 / 1000 = 308.7, rounded to 309
    assert_eq!(tone_frame_count(7), 309);
    assert_eq!(tone_frame_count(0), 0);
    let mut buffer = [7i16; BUFFER_SAMPLES];
    let len = render_tone(440, 50, 1000, &sine(440, 2205), &mut buffer);
    assert_eq!(len, 4410);
    assert_eq!(buffer[4410], 7);
    let len = render_tone(440, 1000, 1000, &sine(440, 4096), &mut buffer);
    assert_eq!(len, BUFFER_SAMPLES);
}

#[test]
fn envelope_rises_then_falls() {
    let total = 1000;
    for i in 1..FADE_SAMPLES {
        assert!(calculate_envelope(i, total, FADE_SAMPLES) > calculate_envelope(i - 1, total, FADE_SAMPLES));
    }
    for i in total - FADE_SAMPLES + 1..total {
        assert!(calculate_envelope(i, total, FADE_SAMPLES) < calculate_envelope(i - 1, total, FADE_SAMPLES));
    }
    assert_eq!(calculate_envelope(0, total, FADE_SAMPLES), 0);
    assert_eq!(calculate_envelope(500, total, FADE_SAMPLES), FADE_SAMPLES);
    assert_eq!(calculate_envelope(999, total, FADE_SAMPLES), 1);
    // a buffer shorter than the fade only rises
    assert_eq!(calculate_envelope(9, 10, FADE_SAMPLES), 9);
}

#[test]
fn tone_samples_follow_wave_envelope_and_amplitude() {
    let wave = sine(1000, 2205);
    let mut buffer = [0i16; BUFFER_SAMPLES];
    let len = render_tone(1000, 50, 16383, &wave, &mut buffer);
    assert_eq!(len, 4410);
    for i in 0..2205 {
        assert_eq!(buffer[2 * i], buffer[2 * i + 1]);
        let env = calculate_envelope(i, 2205, FADE_SAMPLES) as f64 / FADE_SAMPLES as f64;
        let expected = wave[i] as f64 / 32767.0 * 16383.0 * env;
        assert!((buffer[2 * i] as f64 - expected).abs() < 1.0, "frame {}", i);
    }
    assert_eq!(buffer[0], 0);
    // full amplitude in the middle of the tone: sin at 1 kHz peaks every 44.1 frames
    let peak = buffer.iter().map(|s| s.abs()).max().unwrap();
    assert!(peak >= 16380 && peak <= 16383);
}

#[test]
fn rest_is_exact_silence() {
    let mut buffer = [5i16; BUFFER_SAMPLES];
    let len = render_tone(0, 10, 16383, &[], &mut buffer);
    assert_eq!(len, 882);
    assert!(buffer[..882].iter().all(|s| *s == 0));
    assert_eq!(buffer[882], 5);
}

#[test]
fn amplitude_composes_volumes() {
    assert_eq!(note_amplitude(255, 255), 16383);
    assert_eq!(note_amplitude(0, 255), 0);
    assert_eq!(note_amplitude(255, 0), 0);
    // 32767 * 100 / 255 * 200 / 255 * 0.5 = 5039.1
    assert_eq!(note_amplitude(100, 200), 5039);
}

#[test]
fn coin_collect_first_note_amplitude() {
    let speakers = Speakers { mode: Mode::Chiptune(chiptunes::coin_collect()), volume: 255 };
    let mut player = Player::new();
    let expected = (32767.0f64 * 128.0 / 255.0 * 255.0 / 255.0 * 0.5) as u16;
    assert_eq!(
        player.step(&speakers),
        Action::Tone { frequency: 988, duration_ms: 100, amplitude: expected }
    );
    assert_eq!(expected, 8223);
}

fn frequencies(player: &mut Player, speakers: &Speakers, steps: usize) -> Vec<u32> {
    (0..steps)
        .map(|_| match player.step(speakers) {
            Action::Tone { frequency, .. } => frequency,
            other => panic!("expected a tone, got {:?}", other),
        })
        .collect()
}

#[test]
fn looping_chiptune_restarts_until_mode_changes() {
    let melody = chiptunes::power_up().with_loop();
    let speakers = Speakers { mode: Mode::Chiptune(melody), volume: 200 };
    let mut player = Player::new();
    let played = frequencies(&mut player, &speakers, 10);
    assert_eq!(played, vec![523, 659, 784, 1047, 523, 659, 784, 1047, 523, 659]);
    let silent = Speakers { mode: Mode::Silent, volume: 200 };
    assert_eq!(player.step(&silent), Action::Silence { pause_ms: 100 });
    assert!(player.playing.is_none());
}

#[test]
fn mode_change_mid_melody_switches_at_the_next_note() {
    let speakers = Speakers { mode: Mode::Chiptune(chiptunes::level_complete()), volume: 255 };
    let mut player = Player::new();
    assert_eq!(frequencies(&mut player, &speakers, 2), vec![523, 659]);
    let other = Speakers { mode: Mode::Chiptune(chiptunes::sad()), volume: 255 };
    assert_eq!(frequencies(&mut player, &other, 2), vec![440, 415]);
    let tone = Speakers { mode: Mode::Tone(Note::new(300, 20)), volume: 51 };
    // a tone without its own volume takes the master volume: 32767 * 51 / 255 * 0.5
    assert_eq!(player.step(&tone), Action::Tone { frequency: 300, duration_ms: 20, amplitude: 3276 });
}

#[test]
fn melody_keeps_master_volume_it_started_with() {
    let melody = chiptunes::menu_select();
    let mut player = Player::new();
    let loud = Speakers { mode: Mode::Chiptune(melody), volume: 255 };
    let quiet = Speakers { mode: Mode::Chiptune(melody), volume: 0 };
    assert_eq!(player.step(&loud), Action::Tone { frequency: 1047, duration_ms: 50, amplitude: 8223 });
    assert_eq!(player.step(&quiet), Action::Tone { frequency: 1319, duration_ms: 50, amplitude: 8223 });
    // played once through: the mode is read afresh, with the new master volume
    assert_eq!(player.step(&quiet), Action::Tone { frequency: 1047, duration_ms: 50, amplitude: 0 });
}

#[test]
fn note_volume_overrides_sequence_default() {
    let s = ChiptuneSequence::from_notes(&[Note::with_volume(440, 10, 255), Note::new(440, 10)]).unwrap().with_volume(0);
    let speakers = Speakers { mode: Mode::Chiptune(s), volume: 255 };
    let mut player = Player::new();
    assert_eq!(player.step(&speakers), Action::Tone { frequency: 440, duration_ms: 10, amplitude: 16383 });
    assert_eq!(player.step(&speakers), Action::Tone { frequency: 440, duration_ms: 10, amplitude: 0 });
}

#[test]
fn clip_playback_is_reported_unsupported() {
    let speakers = Speakers { mode: Mode::Audio(clips::example()), volume: 255 };
    let mut player = Player::new();
    assert_eq!(player.step(&speakers), Action::Unsupported { pause_ms: 100 });
    let empty = Speakers { mode: Mode::Chiptune(ChiptuneSequence::new().with_loop()), volume: 255 };
    assert_eq!(player.step(&empty), Action::Silence { pause_ms: 100 });
}

#[test]
fn clip_counts_and_duration() {
    let c = clips::example();
    assert_eq!(c.data.len(), 1000);
    assert!(c.data.iter().all(|b| *b == 128));
    assert_eq!(c.sample_count(), 1000);
    assert_eq!(c.duration_ms(), 125);
    static DATA: [u8; 4000] = [0; 4000];
    let stereo = Clip::new(&DATA, 16000, 16, true).with_loop();
    assert!(stereo.looping);
    assert_eq!(stereo.sample_count(), 1000);
    assert_eq!(stereo.duration_ms(), 62);
    assert_eq!(Clip::mono_16bit(&DATA, 8000).sample_count(), 2000);
    assert_eq!(Clip::mono_8bit(&DATA, 8000).duration_ms(), 500);
    assert_eq!(Clip::new(&DATA, 8000, 4, false).sample_count(), 0);
}

#[test]
fn presets_hold_their_notes() {
    let coin = chiptunes::coin_collect();
    assert_eq!(coin.length, 2);
    assert_eq!(coin.notes[0], Note::new(988, 100));
    assert_eq!(coin.notes[1], Note::new(1319, 400));
    assert_eq!(coin.default_volume, 128);
    assert!(!coin.looping);
    let alert = chiptunes::alert();
    assert_eq!(alert.notes[1], Note::rest(50));
    assert_eq!(chiptunes::level_complete().length, 6);
    assert_eq!(chiptunes::shutdown().notes[4], Note::new(262, 200));
}
