use aivoice_vox::error::Error;
use aivoice_vox::settings_modifier::{
    modify_files, patch_settings, restore_files, SettingsFiles, SettingsModifier,
};

fn sample_settings() -> Vec<u8> {
    let mut text = String::new();
    text.push_str("<Settings>");
    text.push_str("<PhraseDic>old-dic</PhraseDic>");
    text.push_str("<BeginPause>150</BeginPause>");
    text.push_str("<TermPause>150</TermPause>");
    text.push_str("<BitDepth>16</BitDepth>");
    text.push_str("<SamplesPerSec>44100</SamplesPerSec>");
    text.push_str("<PcmAudioType>Adpcm</PcmAudioType>");
    text.push_str("<FilePathSelectionMode>Auto</FilePathSelectionMode>");
    text.push_str("<IsTextFileCreated>true</IsTextFileCreated>");
    text.push_str("<SplitCondition>Sentence</SplitCondition>");
    text.push_str("</Settings>");
    text.into_bytes()
}

#[test]
fn patch_rewrites_every_routed_key() {
    let patched = patch_settings(&sample_settings(), &b"C:\\temp\\dict.pdic".to_vec()).unwrap();
    let text = String::from_utf8(patched).unwrap();
    assert!(text.contains("<BeginPause>0</BeginPause>"));
    assert!(text.contains("<TermPause>0</TermPause>"));
    assert!(text.contains("<BitDepth>0</BitDepth>"));
    assert!(text.contains("<SamplesPerSec>48000</SamplesPerSec>"));
    assert!(text.contains("<PcmAudioType>Linear</PcmAudioType>"));
    assert!(text.contains("<FilePathSelectionMode>FileSaveDialog</FilePathSelectionMode>"));
    assert!(text.contains("<IsTextFileCreated>false</IsTextFileCreated>"));
    assert!(text.contains("<SplitCondition>None</SplitCondition>"));
    assert!(text.contains("<PartialPath>C:\\temp\\dict.pdic</PartialPath>"));
    assert!(text.contains("<IsEnabled>true</IsEnabled>"));
    assert!(!text.contains("old-dic"));
}

#[test]
fn dictionary_path_is_markup_escaped() {
    let patched = patch_settings(&sample_settings(), &b"C:\\a&b<c>d".to_vec()).unwrap();
    let text = String::from_utf8(patched).unwrap();
    assert!(text.contains("<PartialPath>C:\\a&amp;b&lt;c&gt;d</PartialPath>"));
}

#[test]
fn missing_tag_is_a_parse_error() {
    let broken = b"<Settings><PhraseDic>x</PhraseDic></Settings>".to_vec();
    let err = patch_settings(&broken, &b"d".to_vec()).unwrap_err();
    assert!(matches!(err, Error::SettingsParseFailed(_)));
}

#[test]
fn modify_creates_backup_of_the_original() {
    let files = SettingsFiles { live: sample_settings(), backup: None };
    let after = modify_files(files, &b"d.pdic".to_vec()).unwrap();
    assert_eq!(after.backup.as_deref(), Some(sample_settings().as_slice()));
    assert_ne!(after.live, sample_settings());
}

#[test]
fn modify_preserves_a_preexisting_backup() {
    // A backup left by an interrupted run must never be overwritten
    // with already-patched content.
    let pristine = b"pristine original".to_vec();
    let files = SettingsFiles { live: sample_settings(), backup: Some(pristine.clone()) };
    let after = modify_files(files, &b"d.pdic".to_vec()).unwrap();
    assert_eq!(after.backup.as_deref(), Some(pristine.as_slice()));
}

#[test]
fn restore_installs_backup_and_second_restore_fails_cleanly() {
    let files = SettingsFiles { live: sample_settings(), backup: None };
    let modified = modify_files(files, &b"d.pdic".to_vec()).unwrap();
    let restored = restore_files(modified).unwrap();
    assert_eq!(restored.live, sample_settings());
    assert!(restored.backup.is_none());
    assert!(restore_files(restored).is_none());
}

#[test]
fn setting_paths_follow_the_profile_directory() {
    let _m = SettingsModifier::new();
    assert_eq!(
        SettingsModifier::aivoice_setting_path("C:\\profile\\1.0"),
        "C:\\profile\\1.0\\Standard.settings"
    );
    assert_eq!(
        SettingsModifier::aivoice_backup_setting_path("C:\\profile\\1.0"),
        "C:\\profile\\1.0\\Standard.settings.bak"
    );
}
