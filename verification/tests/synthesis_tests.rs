use aivoice_vox::aivoice::{Speaker, Style};
use aivoice_vox::error::Error;
use aivoice_vox::host::{SCALE_ONE_BITS, SCALE_ZERO_BITS};
use aivoice_vox::synthesis::{build_synthesis_preset, find_speaker_by_id, resolve_composite};

fn two_style_speaker() -> Speaker {
    Speaker {
        display_name: "琴葉 葵".to_string(),
        internal_name: "aoi_emo".to_string(),
        id: 10,
        styles: vec![Style::Normal, Style::Joy],
    }
}

#[test]
fn composite_id_resolves_to_one_speaker_and_style() {
    let speakers = vec![two_style_speaker()];
    let (idx, style) = resolve_composite(&speakers, 100).unwrap();
    assert_eq!(idx, 0);
    assert_eq!(style, Style::Normal);
    let (_, style) = resolve_composite(&speakers, 101).unwrap();
    assert_eq!(style, Style::Joy);
}

#[test]
fn normal_style_weights_are_one_then_zero() {
    let speaker = two_style_speaker();
    let preset = build_synthesis_preset(
        &speaker,
        Style::Normal,
        SCALE_ONE_BITS,
        SCALE_ONE_BITS,
        SCALE_ONE_BITS,
    );
    let weights: Vec<f64> = preset.styles.iter().map(|s| f64::from_bits(s.value)).collect();
    assert_eq!(weights, vec![1.0, 0.0]);
    assert_eq!(preset.styles[0].name, "N");
    assert_eq!(preset.styles[1].name, "J");
}

#[test]
fn joy_style_weights_are_zero_then_one() {
    let speaker = two_style_speaker();
    let preset = build_synthesis_preset(
        &speaker,
        Style::Joy,
        SCALE_ONE_BITS,
        SCALE_ONE_BITS,
        SCALE_ONE_BITS,
    );
    let weights: Vec<f64> = preset.styles.iter().map(|s| f64::from_bits(s.value)).collect();
    assert_eq!(weights, vec![0.0, 1.0]);
}

#[test]
fn style_absent_from_speaker_is_a_style_resolution_error() {
    // Ordinal two names a known style, but this speaker has no such
    // style: resolution must fail, never substitute a default.
    let speakers = vec![two_style_speaker()];
    let err = resolve_composite(&speakers, 102).unwrap_err();
    assert!(matches!(err, Error::SynthesisFailed(_)));
}

#[test]
fn unknown_style_ordinal_is_a_synthesis_error() {
    let speakers = vec![two_style_speaker()];
    let err = resolve_composite(&speakers, 104).unwrap_err();
    assert!(matches!(err, Error::SynthesisFailed(_)));
}

#[test]
fn unknown_speaker_id_is_speaker_not_found() {
    let speakers = vec![two_style_speaker()];
    let err = resolve_composite(&speakers, 990).unwrap_err();
    assert!(matches!(err, Error::SpeakerNotFound));
}

#[test]
fn first_matching_speaker_wins() {
    let mut second = two_style_speaker();
    second.display_name = "second".to_string();
    let speakers = vec![two_style_speaker(), second];
    assert_eq!(find_speaker_by_id(&speakers, 10), Some(0));
    assert_eq!(find_speaker_by_id(&speakers, 11), None);
}

#[test]
fn preset_carries_fixed_pauses_and_voice() {
    let speaker = two_style_speaker();
    let volume = (1.25f64).to_bits();
    let speed = (0.75f64).to_bits();
    let pitch = (2.0f64).to_bits();
    let preset = build_synthesis_preset(&speaker, Style::Normal, volume, speed, pitch);
    assert_eq!(preset.preset_name, "AIVoiceVox");
    assert_eq!(preset.voice_name, "aoi_emo");
    assert_eq!(f64::from_bits(preset.volume), 1.25);
    assert_eq!(f64::from_bits(preset.speed), 0.75);
    assert_eq!(f64::from_bits(preset.pitch), 2.0);
    assert_eq!(f64::from_bits(preset.pitch_range), 1.0);
    assert_eq!(preset.middle_pause, 750);
    assert_eq!(preset.long_pause, 750);
    assert_eq!(preset.merged_voice_container.base_pitch_voice_name, "aoi_emo");
    assert!(preset.merged_voice_container.merged_voices.is_empty());
}

#[test]
fn scale_zero_bits_is_zero() {
    assert_eq!(f64::from_bits(SCALE_ZERO_BITS), 0.0);
    assert_eq!(f64::from_bits(SCALE_ONE_BITS), 1.0);
}
