use catears::audio::{chiptunes, Mode as AudioMode, Note};
use catears::cmdline::{apply, ChiptuneName, Command, Side};
use catears::color::Color;
use catears::lights::{Mode as LightMode, PulsePattern, RainbowPattern};
use catears::state::{ServoMode, State};

#[test]
fn sides_parse_in_any_case() {
    assert_eq!(Side::from_arg("left"), Some(Side::Left));
    assert_eq!(Side::from_arg("L"), Some(Side::Left));
    assert_eq!(Side::from_arg("RiGhT"), Some(Side::Right));
    assert_eq!(Side::from_arg("r"), Some(Side::Right));
    assert_eq!(Side::from_arg("up"), None);
    assert_eq!(Side::from_arg("lefty"), None);
    assert_eq!(Side::from_arg(""), None);
}

#[test]
fn chiptune_names_parse() {
    assert_eq!(ChiptuneName::from_arg("coin"), Some(ChiptuneName::Coin));
    assert_eq!(ChiptuneName::from_arg("Level"), Some(ChiptuneName::LevelComplete));
    assert_eq!(ChiptuneName::from_arg("LEVELCOMPLETE"), Some(ChiptuneName::LevelComplete));
    assert_eq!(ChiptuneName::from_arg("menu"), Some(ChiptuneName::MenuSelect));
    assert_eq!(ChiptuneName::from_arg("shutdown"), Some(ChiptuneName::Shutdown));
    assert_eq!(ChiptuneName::from_arg("mario"), None);
    assert_eq!(ChiptuneName::GameOver.sequence(), chiptunes::game_over());
}

#[test]
fn commands_change_one_field() {
    let start = State::default_const();
    let mut s = start;
    apply(&mut s, &Command::LightSolid { side: Side::Right, r: 1, g: 2, b: 3 });
    assert_eq!(s.lights.right, LightMode::Solid(Color::new(1, 2, 3)));
    assert_eq!(s.lights.left, start.lights.left);
    apply(&mut s, &Command::LightRainbow { side: Side::Left });
    assert_eq!(s.lights.left, LightMode::Rainbow(RainbowPattern::new(500)));
    apply(&mut s, &Command::LightPulse { side: Side::Left, r: 9, g: 8, b: 7 });
    assert_eq!(s.lights.left, LightMode::Pulse(PulsePattern::new(Color::new(9, 8, 7), 1000)));
    apply(&mut s, &Command::LightOff { side: Side::Left });
    assert_eq!(s.lights.left, LightMode::Off);
    apply(&mut s, &Command::Brightness { value: 40 });
    assert_eq!(s.lights.brightness, 40);
    apply(&mut s, &Command::ServoSet { side: Side::Left, value: 200 });
    assert_eq!(s.servos.left, ServoMode::Static(200));
    assert_eq!(s.servos.right, ServoMode::Static(125));
    apply(&mut s, &Command::AudioTone { freq: 440, duration: 300 });
    assert_eq!(s.speakers.mode, AudioMode::Tone(Note::new(440, 300)));
    apply(&mut s, &Command::AudioChiptune { name: ChiptuneName::Happy });
    assert_eq!(s.speakers.mode, AudioMode::Chiptune(chiptunes::happy()));
    apply(&mut s, &Command::Volume { value: 3 });
    assert_eq!(s.speakers.volume, 3);
    apply(&mut s, &Command::AudioSilent);
    assert_eq!(s.speakers.mode, AudioMode::Silent);
    assert_eq!(s.lights.right, LightMode::Solid(Color::new(1, 2, 3)));
}
