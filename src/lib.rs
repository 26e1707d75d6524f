//! Peripheral logic for a wearable with two RGB LED rings, two ear servos and a
//! stereo speaker pair, all driven from one shared declarative [`state::State`].
//!
//! The crate holds the pure, verified part of the device: the data model, the LED
//! pattern engine, tone synthesis and chiptune playback decisions, and the servo
//! calibration arithmetic. Peripheral I/O and timing live with the caller.

pub mod audio;
pub mod cmdline;
pub mod color;
pub mod lights;
pub mod render;
pub mod servo;
pub mod state;
pub mod synth;
