use aivoice_vox::audio::{
    generate_silence, mono_to_stereo, output_channels, pad_with_silence, validate_output_rate,
};
use aivoice_vox::audio_query::{default_audio_query, F32_ONE_BITS};
use aivoice_vox::error::Error;

#[test]
fn half_second_of_mono_silence_is_twelve_thousand_zeros() {
    let silence = generate_silence(24000, 1, 500);
    assert_eq!(silence.len(), 12000);
    assert!(silence.iter().all(|&s| s == 0));
    assert!(silence.iter().all(|&s| f32::from_bits(s) == 0.0));
}

#[test]
fn stereo_silence_doubles_the_sample_count() {
    let silence = generate_silence(24000, 2, 500);
    assert_eq!(silence.len(), 24000);
}

#[test]
fn zero_duration_silence_is_empty() {
    assert!(generate_silence(48000, 1, 0).is_empty());
}

#[test]
fn silence_duration_truncates_to_whole_samples() {
    // 24000 samples per second for 1 ms is 24 samples; a 999 ms block
    // truncates to whole samples.
    assert_eq!(generate_silence(24000, 1, 1).len(), 24);
    assert_eq!(generate_silence(24000, 1, 999).len(), 23976);
}

#[test]
fn padding_wraps_audio_between_silence_blocks() {
    let audio = vec![(0.5f32).to_bits(), (0.25f32).to_bits()];
    let pre = generate_silence(24000, 1, 1);
    let post = generate_silence(24000, 1, 2);
    let padded = pad_with_silence(pre, &audio, &post);
    assert_eq!(padded.len(), 24 + 2 + 48);
    assert!(padded[..24].iter().all(|&s| s == 0));
    assert_eq!(&padded[24..26], &audio[..]);
    assert!(padded[26..].iter().all(|&s| s == 0));
}

#[test]
fn mono_to_stereo_duplicates_each_sample() {
    let audio = vec![1u32, 2, 3];
    assert_eq!(mono_to_stereo(&audio), vec![1, 1, 2, 2, 3, 3]);
}

#[test]
fn output_channel_count_follows_stereo_flag() {
    assert_eq!(output_channels(true), 2);
    assert_eq!(output_channels(false), 1);
}

#[test]
fn output_rate_in_range_is_accepted() {
    assert_eq!(validate_output_rate(Some(24000)).unwrap(), 24000);
}

#[test]
fn missing_output_rate_is_a_synthesis_error() {
    assert!(matches!(validate_output_rate(None).unwrap_err(), Error::SynthesisFailed(_)));
}

#[test]
fn oversized_output_rate_is_a_synthesis_error() {
    let err = validate_output_rate(Some(u64::from(u32::MAX) + 1)).unwrap_err();
    assert!(matches!(err, Error::SynthesisFailed(_)));
}

#[test]
fn default_audio_query_carries_neutral_scales() {
    let q = default_audio_query(vec![], "こんにちは".to_string());
    assert_eq!(f32::from_bits(q.speed_scale), 1.0);
    assert_eq!(f32::from_bits(q.pitch_scale), 1.0);
    assert_eq!(f32::from_bits(q.intonation_scale), 1.0);
    assert_eq!(f32::from_bits(q.volume_scale), 1.0);
    assert_eq!(q.pre_phoneme_length_ms, 0);
    assert_eq!(q.post_phoneme_length_ms, 0);
    assert_eq!(q.output_sampling_rate, Some(24000));
    assert!(q.output_stereo);
    assert_eq!(q.kana, "こんにちは");
    assert_eq!(F32_ONE_BITS, (1.0f32).to_bits());
}
