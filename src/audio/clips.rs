//! Clips compiled into the firmware.

use crate::audio::Clip;
use vstd::prelude::*;

verus! {

/// A stand-in clip: 1000 samples of 8-bit mono silence at 8 kHz.
pub fn example() -> (c: Clip)
    ensures
        c.data@.len() == 1000,
        forall|i: int| 0 <= i < 1000 ==> c.data@[i] == 128,
        c.sample_rate == 8000,
        c.bits_per_sample == 8,
        !c.is_stereo,
        !c.looping,
{
    // 128 is the midpoint of unsigned 8-bit PCM: silence.
    Clip::mono_8bit(&[128u8; 1000], 8000)
}

} // verus!
