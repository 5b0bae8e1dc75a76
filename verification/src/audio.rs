//! Audio post-processing bookkeeping: silence blocks, padding, channel
//! layout and the output-rate check.
//!
//! Samples are carried as the 32-bit IEEE 754 bit patterns of the
//! single-precision values the host produces; the logic never computes
//! with the sample values — it only counts, pads and duplicates them —
//! and the process shell converts at the boundary. A silence sample is
//! the zero pattern. Resampling computes on the sample values themselves
//! and therefore stays outside, between the padding and the channel
//! layout steps.

use vstd::prelude::*;
use crate::error::Error;

verus! {

/// The number of silence samples of a duration: the sample rate times
/// the duration in milliseconds, truncated to whole samples, times the
/// channel count.
pub open spec fn spec_silence_len(sample_rate: u32, channels: u16, duration_ms: u64) -> int {
    sample_rate as int * duration_ms as int / 1000 * channels as int
}

proof fn lemma_mul_bound(a: int, b: int, am: int, bm: int)
    by (nonlinear_arith)
    requires
        0 <= a <= am,
        0 <= b <= bm,
    ensures
        a * b <= am * bm,
{
}

proof fn lemma_div_bound(a: int, am: int, d: int)
    by (nonlinear_arith)
    requires
        0 <= a <= am,
        d >= 1,
    ensures
        0 <= a / d <= am,
{
}

/// A block of zero samples covering the given duration at the given
/// rate and channel layout.
pub fn generate_silence(sample_rate: u32, channels: u16, duration_ms: u64) -> (r: Vec<u32>)
    requires
        spec_silence_len(sample_rate, channels, duration_ms) <= usize::MAX,
    ensures
        r@.len() == spec_silence_len(sample_rate, channels, duration_ms),
        forall|k: int| 0 <= k < r@.len() ==> r@[k] == 0u32,
{
    proof {
        lemma_mul_bound(
            sample_rate as int,
            duration_ms as int,
            u32::MAX as int,
            u64::MAX as int,
        );
        lemma_div_bound(
            sample_rate as int * duration_ms as int,
            u32::MAX as int * u64::MAX as int,
            1000,
        );
        lemma_mul_bound(
            sample_rate as int * duration_ms as int / 1000,
            channels as int,
            u32::MAX as int * u64::MAX as int,
            u16::MAX as int,
        );
    }
    let frames = (sample_rate as u128) * (duration_ms as u128) / 1000;
    let total = frames * (channels as u128);
    proof {
        assert(total == spec_silence_len(sample_rate, channels, duration_ms));
    }
    let n = total as usize;
    let mut out: Vec<u32> = Vec::new();
    let mut k: usize = 0;
    while k < n
        invariant
            k <= n,
            out@.len() == k,
            forall|j: int| 0 <= j < k ==> out@[j] == 0u32,
        decreases n - k,
    {
        out.push(0);
        k = k + 1;
    }
    out
}

/// The audio with silence blocks added before and behind it.
pub open spec fn spec_padded(audio: Seq<u32>, pre: int, post: int) -> Seq<u32> {
    Seq::new(pre as nat, |k: int| 0u32) + audio + Seq::new(post as nat, |k: int| 0u32)
}

/// Pads the audio with the given silence blocks: the result is the
/// pre-block, the audio, then the post-block, sample for sample.
pub fn pad_with_silence(pre: Vec<u32>, audio: &Vec<u32>, post: &Vec<u32>) -> (r: Vec<u32>)
    requires
        forall|k: int| 0 <= k < pre@.len() ==> pre@[k] == 0u32,
        forall|k: int| 0 <= k < post@.len() ==> post@[k] == 0u32,
    ensures
        r@ == spec_padded(audio@, pre@.len() as int, post@.len() as int),
{
    let ghost pre0 = pre@;
    let mut out = pre;
    let mut k: usize = 0;
    while k < audio.len()
        invariant
            k <= audio@.len(),
            out@ =~= pre0 + audio@.subrange(0, k as int),
        decreases audio@.len() - k,
    {
        out.push(audio[k]);
        proof {
            assert(out@ =~= pre0 + audio@.subrange(0, k as int + 1));
        }
        k = k + 1;
    }
    proof {
        assert(out@ =~= pre0 + audio@);
    }
    let ghost mid = out@;
    let mut k2: usize = 0;
    while k2 < post.len()
        invariant
            k2 <= post@.len(),
            out@ =~= mid + post@.subrange(0, k2 as int),
        decreases post@.len() - k2,
    {
        out.push(post[k2]);
        proof {
            assert(out@ =~= mid + post@.subrange(0, k2 as int + 1));
        }
        k2 = k2 + 1;
    }
    proof {
        assert(out@ =~= mid + post@);
        assert(out@ =~= spec_padded(audio@, pre0.len() as int, post@.len() as int));
    }
    out
}

/// A mono signal laid out over two channels: every sample duplicated
/// into a left/right pair, in order.
pub fn mono_to_stereo(samples: &Vec<u32>) -> (r: Vec<u32>)
    requires
        samples@.len() * 2 <= usize::MAX,
    ensures
        r@.len() == samples@.len() * 2,
        forall|k: int|
            0 <= k < samples@.len() ==> r@[2 * k] == samples@[k] && r@[2 * k + 1] == samples@[k],
{
    let mut out: Vec<u32> = Vec::new();
    let mut k: usize = 0;
    while k < samples.len()
        invariant
            k <= samples@.len(),
            samples@.len() * 2 <= usize::MAX,
            out@.len() == 2 * k,
            forall|j: int|
                0 <= j < k ==> out@[2 * j] == samples@[j] && out@[2 * j + 1] == samples@[j],
        decreases samples@.len() - k,
    {
        let s = samples[k];
        out.push(s);
        out.push(s);
        k = k + 1;
    }
    out
}

/// Whether the host has produced its audio: the saved file's size going
/// non-zero is the only completion signal the save call offers, so the
/// poll stops exactly then.
pub fn audio_ready(file_len: u64) -> (r: bool)
    ensures
        r <==> file_len > 0,
{
    file_len > 0
}

/// The channel count of the response: two when stereo output was
/// requested, one otherwise.
pub fn output_channels(output_stereo: bool) -> (r: u16)
    ensures
        r == (if output_stereo { 2u16 } else { 1u16 }),
{
    if output_stereo {
        2
    } else {
        1
    }
}

/// Checks the requested output sampling rate: a number that fits the
/// rate field is accepted as it is; a missing or oversized number is a
/// synthesis error, exactly then.
pub fn validate_output_rate(raw: Option<u64>) -> (r: Result<u32, Error>)
    ensures
        match r {
            Ok(v) => raw == Some(v as u64) && v as u64 <= u32::MAX as u64,
            Err(e) => (match raw {
                None => true,
                Some(x) => x > u32::MAX as u64,
            }) && e is SynthesisFailed,
        },
{
    match raw {
        Some(x) => {
            if x <= 0xFFFF_FFFFu64 {
                Ok(x as u32)
            } else {
                Err(Error::SynthesisFailed(String::from_str("invalid output sampling rate")))
            }
        },
        None => Err(Error::SynthesisFailed(String::from_str("invalid output sampling rate"))),
    }
}

} // verus!
