//! Frame downmixing and PCM byte packing.
//!
//! Capture callbacks deliver interleaved multi-channel PCM16 blocks.  The
//! pipeline reduces each frame to a single mono sample by averaging its
//! channels, and packs mono samples into little-endian bytes for the wire.

use vstd::prelude::*;
use crate::resample::tdiv;

verus! {

/// Sum of the `n` samples of the frame starting at `base`.
pub open spec fn frame_sum(s: Seq<i16>, base: int, n: nat) -> int
    decreases n,
{
    if n == 0 {
        0
    } else {
        frame_sum(s, base, (n - 1) as nat) + s[base + n - 1]
    }
}

/// Mono value of frame `k`: the channel mean, truncated toward zero.
pub open spec fn frame_mean(s: Seq<i16>, channels: nat, k: int) -> int {
    tdiv(frame_sum(s, k * channels, channels), channels as int)
}

/// Reduce an interleaved block to mono by averaging each complete frame of
/// `channels` samples; a trailing partial frame is dropped.  One channel is
/// a passthrough, since the mean of a single sample is the sample.
///
/// The channel-count bound keeps every frame sum inside `i32`; real devices
/// stay in single digits.
pub fn downmix(samples: &[i16], channels: usize) -> (out: Vec<i16>)
    requires
        1 <= channels <= 0x10000,
    ensures
        out@.len() == samples@.len() as int / channels as int,
        forall|k: int|
            0 <= k < out@.len() ==> out@[k] == frame_mean(samples@, channels as nat, k),
{
    let ghost s = samples@;
    let n = samples.len();
    let n_frames = n / channels;
    let mut out: Vec<i16> = Vec::new();
    for k in 0..n_frames
        invariant
            s == samples@,
            n == s.len(),
            1 <= channels <= 0x10000,
            n_frames == n as int / channels as int,
            out@.len() == k,
            forall|f: int| 0 <= f < k ==> out@[f] == frame_mean(s, channels as nat, f),
    {
        proof {
            assert(k * channels + channels <= n) by (nonlinear_arith)
                requires
                    channels >= 1,
                    0 <= k < n_frames,
                    n_frames == n as int / channels as int,
                    n >= 0,
            ;
        }
        let base = k * channels;
        let mut sum: i64 = 0;
        for j in 0..channels
            invariant
                s == samples@,
                n == s.len(),
                1 <= channels <= 0x10000,
                base == k * channels,
                base + channels <= n,
                sum == frame_sum(s, base as int, j as nat),
                -32768 * j <= sum <= 32767 * j,
        {
            sum = sum + samples[base + j] as i64;
        }
        let mean = crate::resample::tdiv_i64(sum, channels as i64);
        proof {
            crate::resample::lemma_tdiv_in_range(sum as int, -32768, 32767, channels as int);
        }
        out.push(mean as i16);
    }
    out
}

/// Low byte of a sample's little-endian encoding.
pub open spec fn le_low(s: i16) -> u8 {
    (s as u16) as u8
}

/// High byte of a sample's little-endian encoding.
pub open spec fn le_high(s: i16) -> u8 {
    ((s as u16) >> 8) as u8
}

/// Pack mono PCM16 samples into little-endian bytes, two per sample, as
/// the wire format of the transcription service expects.
pub fn pcm_to_bytes(samples: &[i16]) -> (out: Vec<u8>)
    ensures
        out@.len() == 2 * samples@.len(),
        forall|i: int|
            0 <= i < samples@.len() ==> out@[2 * i] == le_low(samples@[i]) && out@[2 * i + 1]
                == le_high(samples@[i]),
{
    let ghost s = samples@;
    let n = samples.len();
    let mut out: Vec<u8> = Vec::new();
    for i in 0..n
        invariant
            s == samples@,
            n == s.len(),
            out@.len() == 2 * i,
            forall|j: int|
                0 <= j < i ==> out@[2 * j] == le_low(s[j]) && out@[2 * j + 1] == le_high(s[j]),
    {
        let u = samples[i] as u16;
        out.push(u as u8);
        out.push((u >> 8) as u8);
    }
    out
}

} // verus!
