//! Sample-rate conversion for the streaming pipeline.
//!
//! The capture device delivers mono PCM16 blocks at its native rate; the
//! transcription service expects 24 kHz.  Four strategies cover the rates
//! that occur in practice: identity at 24 kHz, decimation for exact
//! multiples, a 2:3 interpolation scheme for 16 kHz, and generic linear
//! interpolation for everything else.

use vstd::prelude::*;

verus! {

/// Sample rate expected by the transcription service, in Hz.
pub const TARGET_RATE: u32 = 24000;

/// Integer division truncating toward zero, as Rust's `/` computes it on
/// signed operands.
pub open spec fn tdiv(a: int, b: int) -> int
    recommends
        b > 0,
{
    if a >= 0 {
        a / b
    } else {
        -((-a) / b)
    }
}

/// The interpolated sample inserted between two 16 kHz neighbours.
pub open spec fn interp_two_thirds(curr: i16, next: i16) -> int {
    tdiv(2 * curr + next, 3)
}

/// What resampling a block from `rate` Hz to the 24 kHz target yields.
///
/// - at 24 kHz the block is unchanged;
/// - at an exact multiple of 24 kHz, every `rate / 24000`-th sample is kept;
/// - at 16 kHz each pair `(curr, next)` becomes `curr`, `(2*curr + next) / 3`,
///   `next`, a lone trailing sample passing through;
/// - otherwise each output index is linearly interpolated between its two
///   neighbouring source samples at the exact rational ratio.
pub open spec fn spec_resample(s: Seq<i16>, rate: u32) -> Seq<i16>
    recommends
        rate >= 1,
{
    if rate == 24000 {
        s
    } else if rate > 24000 && rate % 24000 == 0 {
        let step = rate / 24000;
        Seq::new((s.len() / step as nat) as nat, |i: int| s[i * step])
    } else if rate == 16000 {
        Seq::new((3 * s.len() / 2) as nat, |j: int| upsample_16k_sample(s, j))
    } else {
        Seq::new(
            (s.len() * 24000 / rate as nat) as nat,
            |i: int| lin_sample(s, rate as int, i) as i16,
        )
    }
}

/// Output sample `j` of the 16 kHz scheme: position `3k` carries `s[2k]`,
/// `3k + 1` the interpolation of the pair, `3k + 2` its second sample.
pub open spec fn upsample_16k_sample(s: Seq<i16>, j: int) -> i16 {
    let k = j / 3;
    if j % 3 == 0 {
        s[2 * k]
    } else if j % 3 == 1 {
        interp_two_thirds(s[2 * k], s[2 * k + 1]) as i16
    } else {
        s[2 * k + 1]
    }
}

/// Output sample `i` of the generic linear arm: source position `i * rate /
/// 24000` as an exact rational, interpolated between the neighbouring
/// samples by its fractional part, passing the last sample through when no
/// right neighbour remains.
pub open spec fn lin_sample(s: Seq<i16>, rate: int, i: int) -> int {
    let pos = i * rate;
    let idx = pos / 24000;
    let rem = pos % 24000;
    if idx + 1 < s.len() {
        tdiv(s[idx] * (24000 - rem) + s[idx + 1] * rem, 24000)
    } else {
        s[idx] as int
    }
}

/// Truncating division keeps a value that is bracketed by `lo * d` and
/// `hi * d` inside `[lo, hi]`.
pub proof fn lemma_tdiv_in_range(x: int, lo: int, hi: int, d: int)
    requires
        d > 0,
        lo * d <= x <= hi * d,
    ensures
        lo <= tdiv(x, d) <= hi,
{
    if x >= 0 {
        assert(lo <= x / d <= hi) by (nonlinear_arith)
            requires
                d > 0,
                x >= 0,
                lo * d <= x <= hi * d,
        ;
    } else {
        assert(lo <= -((-x) / d) <= hi) by (nonlinear_arith)
            requires
                d > 0,
                x < 0,
                lo * d <= x <= hi * d,
        ;
    }
}

/// Truncating division of an `i64` by a positive divisor, written so that
/// both operands of `/` are nonnegative.
pub(crate) fn tdiv_i64(a: i64, b: i64) -> (r: i64)
    requires
        b > 0,
        a > i64::MIN,
    ensures
        r == tdiv(a as int, b as int),
{
    if a >= 0 {
        a / b
    } else {
        -((-a) / b)
    }
}

/// True of the rates served by generic linear interpolation: everything
/// but the target itself, its exact multiples, and 16 kHz.
pub open spec fn interpolated_rate(rate: u32) -> bool {
    rate != 24000 && !(rate > 24000 && rate % 24000 == 0) && rate != 16000
}

/// Resample a mono PCM16 block from `native_rate` Hz to the 24 kHz target.
///
/// Only the linear arm needs the block-length bound: it keeps the
/// intermediate position arithmetic inside the machine's integers, and
/// capture callbacks deliver a few thousand samples at a time, far below
/// it.
pub fn resample(samples: &[i16], native_rate: u32) -> (out: Vec<i16>)
    requires
        native_rate >= 1,
        interpolated_rate(native_rate) ==> samples@.len() <= 0x1000_0000 && samples@.len() as int
            * 24000 / (native_rate as int) <= usize::MAX as int,
    ensures
        out@ == spec_resample(samples@, native_rate),
{
    let ghost s = samples@;
    if native_rate == 24000 {
        let mut out: Vec<i16> = Vec::new();
        for i in 0..samples.len()
            invariant
                out@ == s.take(i as int),
                s == samples@,
        {
            out.push(samples[i]);
        }
        assert(out@ == s);
        out
    } else if native_rate > 24000 && native_rate % 24000 == 0 {
        resample_decimate(samples, native_rate)
    } else if native_rate == 16000 {
        resample_16k(samples)
    } else {
        resample_linear(samples, native_rate)
    }
}

/// Decimation arm: keep the first sample of each complete group of
/// `native_rate / 24000`.
fn resample_decimate(samples: &[i16], native_rate: u32) -> (out: Vec<i16>)
    requires
        native_rate > 24000,
        native_rate % 24000 == 0,
    ensures
        out@ == spec_resample(samples@, native_rate),
{
    let ghost s = samples@;
    let step = (native_rate / 24000) as usize;
    assert(step >= 1);
    let n = samples.len();
    let n_out = n / step;
    let mut out: Vec<i16> = Vec::new();
    for i in 0..n_out
        invariant
            s == samples@,
            n == s.len(),
            step == native_rate / 24000,
            step >= 1,
            n_out == n as int / step as int,
            out@.len() == i,
            forall|k: int| 0 <= k < i ==> out@[k] == s[k * step],
    {
        proof {
            assert(i * step < n) by (nonlinear_arith)
                requires
                    step >= 1,
                    0 <= i < n_out,
                    n_out == n as int / step as int,
                    n >= 0,
            ;
        }
        out.push(samples[i * step]);
    }
    assert(out@ =~= spec_resample(s, native_rate));
    out
}

/// 16 kHz arm: each complete pair yields three output samples; an odd
/// trailing sample passes through.
fn resample_16k(samples: &[i16]) -> (out: Vec<i16>)
    ensures
        out@ == spec_resample(samples@, 16000),
{
    let ghost s = samples@;
    let n = samples.len();
    let pairs = n / 2;
    let mut out: Vec<i16> = Vec::new();
    for k in 0..pairs
        invariant
            s == samples@,
            n == s.len(),
            pairs == n / 2,
            out@.len() == 3 * k,
            forall|j: int| 0 <= j < out@.len() ==> out@[j] == upsample_16k_sample(s, j),
    {
        assert(2 * k + 1 < n);
        let curr = samples[2 * k];
        let next = samples[2 * k + 1];
        let x: i64 = 2 * (curr as i64) + (next as i64);
        let mid64 = tdiv_i64(x, 3);
        proof {
            lemma_tdiv_in_range(x as int, -32768, 32767, 3);
        }
        let mid = mid64 as i16;
        out.push(curr);
        out.push(mid);
        out.push(next);
        proof {
            let j0 = 3 * k as int;
            assert(j0 % 3 == 0 && j0 / 3 == k as int) by (nonlinear_arith)
                requires
                    j0 == 3 * k as int,
                    k >= 0,
            ;
            assert((j0 + 1) % 3 == 1 && (j0 + 1) / 3 == k as int) by (nonlinear_arith)
                requires
                    j0 == 3 * k as int,
                    k >= 0,
            ;
            assert((j0 + 2) % 3 == 2 && (j0 + 2) / 3 == k as int) by (nonlinear_arith)
                requires
                    j0 == 3 * k as int,
                    k >= 0,
            ;
        }
    }
    if n % 2 == 1 {
        out.push(samples[n - 1]);
        proof {
            let j0 = 3 * (n as int / 2);
            assert(j0 % 3 == 0 && j0 / 3 == n as int / 2) by (nonlinear_arith)
                requires
                    j0 == 3 * (n as int / 2),
                    n >= 0,
            ;
            assert(2 * (n as int / 2) == n - 1);
        }
    }
    assert(out@.len() == 3 * s.len() / 2) by {
        assert(3 * (s.len() as int / 2) + (if s.len() % 2 == 1 { 1int } else { 0 }) == 3 * s.len()
            / 2) by (nonlinear_arith);
    }
    assert(out@ =~= spec_resample(s, 16000));
    out
}

/// Generic linear-interpolation arm.
fn resample_linear(samples: &[i16], native_rate: u32) -> (out: Vec<i16>)
    requires
        native_rate >= 1,
        native_rate != 24000,
        !(native_rate > 24000 && native_rate % 24000 == 0),
        native_rate != 16000,
        samples@.len() <= 0x1000_0000,
        samples@.len() as int * 24000 / (native_rate as int) <= usize::MAX as int,
    ensures
        out@ == spec_resample(samples@, native_rate),
{
    let ghost s = samples@;
    let n = samples.len();
    let rate = native_rate as u64;
    let n_out = ((n as u64) * 24000 / rate) as usize;
    proof {
        assert(n as int * 24000 / rate as int <= n as int * 24000) by (nonlinear_arith)
            requires
                rate >= 1,
                n >= 0,
        ;
    }
    let mut out: Vec<i16> = Vec::new();
    for i in 0..n_out
        invariant
            s == samples@,
            n == s.len(),
            n <= 0x1000_0000,
            rate == native_rate as u64,
            rate >= 1,
            n_out == n as int * 24000 / rate as int,
            out@.len() == i,
            forall|k: int| 0 <= k < i ==> out@[k] == lin_sample(s, rate as int, k) as i16,
    {
        proof {
            assert(i * rate < n as int * 24000) by (nonlinear_arith)
                requires
                    rate >= 1,
                    0 <= i < n_out,
                    n_out == n as int * 24000 / rate as int,
                    n >= 0,
            ;
            assert(i * rate / 24000 < n) by (nonlinear_arith)
                requires
                    i * rate < n as int * 24000,
                    i >= 0,
                    rate >= 1,
            ;
        }
        let pos: u64 = (i as u64) * rate;
        let idx = (pos / 24000) as usize;
        let rem = (pos % 24000) as i64;
        if idx + 1 < n {
            let a = samples[idx] as i64;
            let b = samples[idx + 1] as i64;
            proof {
                assert(-32768 * 24000 <= a * (24000 - rem) <= 32767 * 24000 && -32768 * 24000 <= b
                    * rem <= 32767 * 24000 && -32768 * 24000 <= a * (24000 - rem) + b * rem
                    <= 32767 * 24000) by (nonlinear_arith)
                    requires
                        -32768 <= a <= 32767,
                        -32768 <= b <= 32767,
                        0 <= rem < 24000,
                ;
            }
            let val: i64 = a * (24000 - rem) + b * rem;
            let v = tdiv_i64(val, 24000);
            proof {
                lemma_tdiv_in_range(val as int, -32768, 32767, 24000);
            }
            out.push(v as i16);
        } else {
            out.push(samples[idx]);
        }
    }
    assert(out@ =~= spec_resample(s, native_rate));
    out
}

/// Resampling at the target rate itself changes nothing.
pub proof fn lemma_resample_identity(s: Seq<i16>)
    ensures
        spec_resample(s, 24000) == s,
{
}

/// Resampling a 48 kHz block halves it: the output holds exactly
/// `floor(len / 2)` samples, each the first of a source pair.
pub proof fn lemma_resample_48k_len(s: Seq<i16>)
    ensures
        spec_resample(s, 48000).len() == s.len() / 2,
        forall|i: int| 0 <= i < s.len() / 2 ==> spec_resample(s, 48000)[i] == s[2 * i],
{
    assert(spec_resample(s, 48000).len() == s.len() / 2);
}

/// Resampling a 16 kHz block yields exactly `floor(3 * len / 2)` samples,
/// and each position `3k + 1` carries the documented interpolation
/// `(2 * curr + next) / 3` of the pair around it.
pub proof fn lemma_resample_16k_shape(s: Seq<i16>)
    ensures
        spec_resample(s, 16000).len() == 3 * s.len() / 2,
        forall|j: int|
            0 <= j < 3 * s.len() / 2 && j % 3 == 1 ==> #[trigger] spec_resample(s, 16000)[j]
                == interp_two_thirds(s[2 * (j / 3)], s[2 * (j / 3) + 1]) as i16,
{
}

} // verus!
