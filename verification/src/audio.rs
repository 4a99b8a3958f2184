//! Integer side of the audio path: stream constants, buffer silence and the
//! clamp that turns a full-scale product into a signed 16-bit sample.

use vstd::prelude::*;

verus! {

/// Sample rate asked of the audio device, in Hz. The device may grant another.
pub const PREFERRED_SAMPLE_RATE_HZ: i32 = 44100;

/// Buffer size asked of the audio device, in frames. The device may grant another.
pub const PREFERRED_BUFFER_FRAMES: u16 = 128;

/// The tone is single-channel.
pub const CHANNELS: u8 = 1;

/// Pitch of the tone, in Hz.
pub const TONE_FREQUENCY_HZ: u16 = 440;

/// Slope of the envelope before squaring, per second: the tone is silent
/// from `1 / DECAY_RATE_PER_SECOND` seconds after a trigger.
pub const DECAY_RATE_PER_SECOND: u16 = 100;

/// Factor that takes a value in [-1, 1] to full scale. It is the positive
/// maximum for both signs, so -1 maps to -32767 and -32768 is reached only by
/// clamping.
pub const SAMPLE_SCALE: i16 = 32767;

/// Smallest sample value.
pub const SAMPLE_MIN: i16 = -32768;

/// Largest sample value.
pub const SAMPLE_MAX: i16 = 32767;

/// `scaled` limited to the range of a signed 16-bit sample.
pub open spec fn clamp_to_sample(scaled: int) -> int {
    if scaled < SAMPLE_MIN {
        SAMPLE_MIN as int
    } else if scaled > SAMPLE_MAX {
        SAMPLE_MAX as int
    } else {
        scaled
    }
}

/// Whether a stream with `channels` channels is single-channel.
pub open spec fn spec_is_mono(channels: u8) -> bool {
    channels == CHANNELS
}

/// Tells whether a negotiated stream is single-channel, the only layout the
/// tone is defined for. A generator must not be built for any other.
#[verifier::when_used_as_spec(spec_is_mono)]
pub fn is_mono(channels: u8) -> (mono: bool)
    ensures
        mono == spec_is_mono(channels),
{
    channels == CHANNELS
}

/// Converts a full-scale product to a sample.
///
/// `scaled` is a value in [-1, 1] multiplied by `SAMPLE_SCALE` and truncated
/// toward zero. Products outside the sample range are clamped to its nearest
/// end; every other product is kept as it is.
pub fn to_sample(scaled: i64) -> (sample: i16)
    ensures
        sample == clamp_to_sample(scaled as int),
        -SAMPLE_SCALE <= scaled <= SAMPLE_SCALE ==> sample == scaled,
{
    if scaled < SAMPLE_MIN as i64 {
        SAMPLE_MIN
    } else if scaled > SAMPLE_MAX as i64 {
        SAMPLE_MAX
    } else {
        scaled as i16
    }
}

/// Writes silence over the whole buffer.
pub fn silence(buffer: &mut [i16])
    ensures
        final(buffer)@.len() == old(buffer)@.len(),
        forall|i: int| 0 <= i < final(buffer)@.len() ==> final(buffer)@[i] == 0,
{
    let n: usize = buffer.len();
    let mut i: usize = 0;
    while i < n
        invariant
            i <= n,
            n == buffer@.len(),
            buffer@.len() == old(buffer)@.len(),
            forall|j: int| 0 <= j < i ==> buffer@[j] == 0,
        decreases n - i,
    {
        buffer[i] = 0;
        i += 1;
    }
}

} // verus!
