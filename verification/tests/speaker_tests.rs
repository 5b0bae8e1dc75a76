use std::hash::Hash;
use std::hash::Hasher;

use aivoice_vox::aivoice::{
    default_voice_preset, is_host_process_name, needs_default_preset, speaker_id_from_hash,
    Phrase, Speaker, Style,
};
use aivoice_vox::host::{MergedVoiceContainer, VoicePreset, VoicePresetStyle, SCALE_ONE_BITS};
use aivoice_vox::roster::{build_roster, first_voice_name, roster_insert, roster_new, roster_values};
use aivoice_vox::speakers::{build_vv_speakers, find_speaker_by_uuid};
use aivoice_vox::uuid_text::{format_hex32, hyphenated};

fn preset_for(display: &str, voice: &str, style_letters: &[&str]) -> VoicePreset {
    VoicePreset {
        preset_name: display.to_string(),
        voice_name: voice.to_string(),
        volume: SCALE_ONE_BITS,
        speed: SCALE_ONE_BITS,
        pitch: SCALE_ONE_BITS,
        pitch_range: SCALE_ONE_BITS,
        middle_pause: 0,
        long_pause: 0,
        styles: style_letters
            .iter()
            .map(|l| VoicePresetStyle { name: l.to_string(), value: 0 })
            .collect(),
        merged_voice_container: MergedVoiceContainer {
            base_pitch_voice_name: String::new(),
            merged_voices: vec![],
        },
    }
}

#[test]
fn style_names_round_trip() {
    for style in [Style::Normal, Style::Joy, Style::Anger, Style::Sorrow] {
        assert_eq!(Style::from_letter(style.letter()), Some(style));
        assert_eq!(Style::from_ordinal(style.ordinal()), Some(style));
    }
    assert_eq!(Style::from_letter("X"), None);
    assert_eq!(Style::from_letter(""), None);
    assert_eq!(Style::from_ordinal(4), None);
}

#[test]
fn style_japanese_names() {
    assert_eq!(Style::Normal.to_japanese(), "ノーマル");
    assert_eq!(Style::Joy.to_japanese(), "喜び");
    assert_eq!(Style::Anger.to_japanese(), "怒り");
    assert_eq!(Style::Sorrow.to_japanese(), "悲しみ");
}

#[test]
fn speaker_id_is_the_reduced_name_hash() {
    let speaker = Speaker::new(preset_for("琴葉 葵", "aoi_emo", &["J", "A", "S"]));
    let mut hasher = fxhash::FxHasher::default();
    "aoi_emo".to_string().hash(&mut hasher);
    let expected = (hasher.finish() % 65535) as u32;
    assert_eq!(speaker.id, expected);
    assert_eq!(speaker_id_from_hash(hasher.finish()), expected);
    assert!(speaker.id < 65535);
}

#[test]
fn speaker_styles_start_with_normal() {
    let speaker = Speaker::new(preset_for("琴葉 葵", "aoi_emo", &["J", "A", "S"]));
    assert_eq!(speaker.styles, vec![Style::Normal, Style::Joy, Style::Anger, Style::Sorrow]);
    assert_eq!(speaker.display_name, "琴葉 葵");
    assert_eq!(speaker.internal_name, "aoi_emo");
}

#[test]
fn speaker_uuid_matches_the_name_based_standard() {
    let speaker = Speaker::new(preset_for("琴葉 葵", "aoi_emo", &[]));
    let expected = uuid::Uuid::new_v5(&uuid::Uuid::NAMESPACE_OID, b"aoi_emo");
    assert_eq!(speaker.uuid(), expected.as_u128());
    assert_eq!(speaker.uuid_text(), expected.hyphenated().to_string());
}

#[test]
fn hyphenated_matches_the_uuid_crate_format() {
    for value in [0u128, 1, 0xdead_beef, u128::MAX, 0x14f4bd0b_99ac_48cc_8171_d93439f16b33] {
        assert_eq!(hyphenated(value), uuid::Uuid::from_u128(value).hyphenated().to_string());
    }
}

#[test]
fn hex_digits_are_the_padded_big_endian_form() {
    assert_eq!(format_hex32(0), "0".repeat(32));
    assert_eq!(format_hex32(0xabc), format!("{:032x}", 0xabcu128));
}

#[test]
fn phrase_keeps_pronunciation_and_fresh_ids_differ() {
    let a = Phrase::new("$2_2ア".to_string());
    let b = Phrase::new("$2_2ア".to_string());
    assert_eq!(a.pronunciation, "$2_2ア");
    assert_eq!(a.uuid_text().len(), 36);
    assert_ne!(a.uuid, b.uuid);
}

#[test]
fn phrase_uuid_text_is_hyphenated_lowercase() {
    let p = Phrase::new("ア".to_string());
    assert_eq!(p.uuid_text(), uuid::Uuid::from_u128(p.uuid).hyphenated().to_string());
}

#[test]
fn roster_keeps_insertion_order_and_replaces_in_place() {
    let mut roster = roster_new();
    assert!(roster_values(&roster).is_empty());
    let a = Speaker::new(preset_for("A", "voice_a", &[]));
    let b = Speaker::new(preset_for("B", "voice_b", &[]));
    assert!(roster_insert(&mut roster, "voice_a".to_string(), a).is_none());
    assert!(roster_insert(&mut roster, "voice_b".to_string(), b).is_none());
    let replacement = Speaker::new(preset_for("A2", "voice_a", &["J"]));
    let prev = roster_insert(&mut roster, "voice_a".to_string(), replacement).unwrap();
    assert_eq!(prev.display_name, "A");
    let values = roster_values(&roster);
    assert_eq!(values.len(), 2);
    assert_eq!(values[0].display_name, "A2");
    assert_eq!(values[1].display_name, "B");
}

#[test]
fn built_roster_keys_speakers_by_internal_name() {
    let speakers = vec![
        Speaker::new(preset_for("A", "voice_a", &[])),
        Speaker::new(preset_for("B", "voice_b", &["J"])),
        Speaker::new(preset_for("A2", "voice_a", &["S"])),
    ];
    let roster = build_roster(speakers);
    let values = roster_values(&roster);
    assert_eq!(values.len(), 2);
    assert_eq!(values[0].display_name, "A2");
    assert_eq!(values[1].display_name, "B");
    assert_eq!(first_voice_name(&roster).as_deref(), Some("voice_a"));
}

#[test]
fn speakers_listing_uses_composite_ids() {
    let speaker = Speaker {
        display_name: "琴葉 葵".to_string(),
        internal_name: "aoi_emo".to_string(),
        id: 10,
        styles: vec![Style::Normal, Style::Joy],
    };
    let listed = build_vv_speakers(&vec![speaker], &"1.4.0".to_string());
    assert_eq!(listed.len(), 1);
    assert_eq!(listed[0].name, "琴葉 葵");
    assert_eq!(listed[0].version, "1.4.0");
    assert_eq!(listed[0].styles.len(), 2);
    assert_eq!(listed[0].styles[0].name, "ノーマル");
    assert_eq!(listed[0].styles[0].id, 100);
    assert_eq!(listed[0].styles[1].name, "喜び");
    assert_eq!(listed[0].styles[1].id, 101);
    assert_eq!(
        listed[0].speaker_uuid,
        uuid::Uuid::new_v5(&uuid::Uuid::NAMESPACE_OID, b"aoi_emo").hyphenated().to_string()
    );
}

#[test]
fn speaker_lookup_by_uuid_ignores_letter_case() {
    let speaker = Speaker::new(preset_for("A", "voice_a", &[]));
    let queried = speaker.uuid_text().to_uppercase();
    let speakers = vec![speaker];
    assert_eq!(find_speaker_by_uuid(&speakers, &queried), Some(0));
    assert_eq!(find_speaker_by_uuid(&speakers, "not-a-uuid"), None);
}

#[test]
fn host_process_name_check_is_case_insensitive() {
    assert!(is_host_process_name("AIVoiceEditor.exe"));
    assert!(is_host_process_name("aivoiceeditor.exe"));
    assert!(is_host_process_name("AIVOICEEDITOR.EXE"));
    assert!(!is_host_process_name("other.exe"));
}

#[test]
fn default_preset_is_created_only_when_absent() {
    let names = vec!["Preset1".to_string(), "AIVoiceVox".to_string()];
    assert!(!needs_default_preset(&names));
    assert!(needs_default_preset(&vec!["Preset1".to_string()]));
    assert!(needs_default_preset(&vec![]));
}

#[test]
fn default_preset_has_neutral_scales_and_no_styles() {
    let preset = default_voice_preset("aoi_emo".to_string());
    assert_eq!(preset.preset_name, "AIVoiceVox");
    assert_eq!(preset.voice_name, "aoi_emo");
    assert_eq!(f64::from_bits(preset.volume), 1.0);
    assert_eq!(f64::from_bits(preset.speed), 1.0);
    assert_eq!(f64::from_bits(preset.pitch), 1.0);
    assert_eq!(f64::from_bits(preset.pitch_range), 1.0);
    assert_eq!(preset.middle_pause, 0);
    assert_eq!(preset.long_pause, 0);
    assert!(preset.styles.is_empty());
    assert_eq!(preset.merged_voice_container.base_pitch_voice_name, "");
}
