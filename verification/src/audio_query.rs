//! The audio query of the synthesis surface: the structured request the
//! analyzer's phrase list is wrapped into, and the defaults it carries.
//!
//! Scale values are carried as the 32-bit IEEE 754 bit patterns of the
//! single-precision numbers the surface exchanges; the process shell
//! converts at the boundary. Silence paddings are carried in
//! milliseconds, and the requested output rate as a plain number that
//! the pipeline validates.

use vstd::prelude::*;
use crate::prosody::AccentPhrase;

verus! {

/// Bit pattern of the single-precision value one, the default scale.
pub const F32_ONE_BITS: u32 = 0x3F80_0000;

/// Bit pattern of the single-precision value zero, the default padding.
pub const F32_ZERO_BITS: u32 = 0;

/// The text-and-speaker query of the analysis endpoints.
#[derive(Debug, Clone)]
pub struct AudioQueryParams {
    pub text: String,
    pub speaker: usize,
}

/// A synthesis query: the accent phrases and the scale parameters.
#[derive(Debug, Clone)]
pub struct AudioQuery {
    pub accent_phrases: Vec<AccentPhrase>,
    pub speed_scale: u32,
    pub pitch_scale: u32,
    pub intonation_scale: u32,
    pub volume_scale: u32,
    pub pre_phoneme_length_ms: u64,
    pub post_phoneme_length_ms: u64,
    pub output_sampling_rate: Option<u64>,
    pub output_stereo: bool,
    pub kana: String,
}

/// Wraps an analyzed phrase list into the default query: neutral scales,
/// no padding, the default output rate, stereo output, and the analyzed
/// text echoed back.
pub fn default_audio_query(accent_phrases: Vec<AccentPhrase>, kana: String) -> (r: AudioQuery)
    ensures
        r.accent_phrases == accent_phrases,
        r.speed_scale == F32_ONE_BITS,
        r.pitch_scale == F32_ONE_BITS,
        r.intonation_scale == F32_ONE_BITS,
        r.volume_scale == F32_ONE_BITS,
        r.pre_phoneme_length_ms == 0,
        r.post_phoneme_length_ms == 0,
        r.output_sampling_rate == Some(24000u64),
        r.output_stereo,
        r.kana == kana,
{
    AudioQuery {
        accent_phrases,
        speed_scale: F32_ONE_BITS,
        pitch_scale: F32_ONE_BITS,
        intonation_scale: F32_ONE_BITS,
        volume_scale: F32_ONE_BITS,
        pre_phoneme_length_ms: 0,
        post_phoneme_length_ms: 0,
        output_sampling_rate: Some(24000),
        output_stereo: true,
        kana,
    }
}

} // verus!
