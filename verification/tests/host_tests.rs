use aivoice_vox::error::Error;
use aivoice_vox::host::{
    guard_action, launch_action, polling_done, should_terminate_on_shutdown, GuardAction, Host,
    HostStatus, LaunchAction, TextEditMode,
};
use aivoice_vox::info::{build_dependency_license, build_engine_manifest, supported_devices,
    License};

#[test]
fn status_codes_decode_to_the_published_range() {
    assert_eq!(HostStatus::from_code(-1), Some(HostStatus::Error));
    assert_eq!(HostStatus::from_code(0), Some(HostStatus::NotRunning));
    assert_eq!(HostStatus::from_code(1), Some(HostStatus::NotConnected));
    assert_eq!(HostStatus::from_code(2), Some(HostStatus::Idle));
    assert_eq!(HostStatus::from_code(3), Some(HostStatus::Busy));
    assert_eq!(HostStatus::from_code(4), None);
    assert_eq!(HostStatus::from_code(-2), None);
}

#[test]
fn guard_treats_not_running_as_fatal() {
    assert_eq!(guard_action(HostStatus::NotRunning), GuardAction::FatalNotRunning);
    assert_eq!(guard_action(HostStatus::Idle), GuardAction::Proceed);
    assert_eq!(guard_action(HostStatus::Busy), GuardAction::Proceed);
    assert_eq!(guard_action(HostStatus::Error), GuardAction::AwaitAndConnect);
    assert_eq!(guard_action(HostStatus::NotConnected), GuardAction::AwaitAndConnect);
}

#[test]
fn launch_starts_only_a_stopped_host() {
    assert_eq!(launch_action(HostStatus::NotRunning), LaunchAction::StartThenAwait);
    assert_eq!(launch_action(HostStatus::Idle), LaunchAction::AlreadyLive);
    assert_eq!(launch_action(HostStatus::Busy), LaunchAction::AwaitOnly);
    assert_eq!(launch_action(HostStatus::Error), LaunchAction::AwaitOnly);
    assert_eq!(launch_action(HostStatus::NotConnected), LaunchAction::AwaitOnly);
}

#[test]
fn polling_stops_exactly_on_not_connected() {
    assert!(polling_done(HostStatus::NotConnected));
    assert!(!polling_done(HostStatus::Busy));
    assert!(!polling_done(HostStatus::NotRunning));
}

#[test]
fn shutdown_terminates_only_an_idle_host() {
    assert!(should_terminate_on_shutdown(HostStatus::Idle));
    assert!(!should_terminate_on_shutdown(HostStatus::Busy));
    assert!(!should_terminate_on_shutdown(HostStatus::NotRunning));
}

#[test]
fn text_edit_mode_codes() {
    assert_eq!(TextEditMode::Text.code(), 0);
    assert_eq!(TextEditMode::Line.code(), 1);
}

#[test]
fn host_keeps_its_machine_name() {
    let host = Host::new("DESKTOP-TEST".to_string());
    assert_eq!(host.name, "DESKTOP-TEST");
}

#[test]
fn error_messages_name_the_failed_operation() {
    assert_eq!(Error::InitializeFailed.message(), "A.I.Voiceの初期化に失敗しました");
    assert_eq!(Error::StartHostFailed.message(), "A.I.Voiceの起動に失敗しました");
    assert_eq!(Error::ConnectFailed.message(), "A.I.Voiceへの接続に失敗しました");
    assert_eq!(Error::SpeakerNotFound.message(), "話者が見つかりませんでした");
    assert_eq!(
        Error::ApiFailed("SetVoicePreset".to_string()).message(),
        "A.I.VoiceのAPI呼び出しに失敗しました：SetVoicePreset"
    );
    assert_eq!(
        Error::SettingsParseFailed("<PhraseDic>".to_string()).message(),
        "設定をパースできませんでした"
    );
}

#[test]
fn error_response_carries_the_message() {
    let response = Error::TerminateHostFailed.to_response();
    assert_eq!(response.error, "A.I.Voiceの終了に失敗しました");
}

#[test]
fn devices_support_cpu_only() {
    let d = supported_devices();
    assert!(d.cpu);
    assert!(!d.cuda);
    assert!(!d.dml);
}

#[test]
fn dependency_license_points_to_repository_when_recorded() {
    let license = License {
        name: "axum".to_string(),
        version: "0.6.0".to_string(),
        authors: None,
        repository: Some("https://github.com/tokio-rs/axum".to_string()),
        license: Some("MIT".to_string()),
        license_file: None,
        description: None,
    };
    let entry = build_dependency_license(license);
    assert_eq!(entry.name, "axum");
    assert_eq!(entry.version.as_deref(), Some("0.6.0"));
    assert_eq!(entry.license.as_deref(), Some("MIT"));
    assert_eq!(entry.text, "<https://github.com/tokio-rs/axum> を参照してください。");
}

#[test]
fn dependency_license_falls_back_to_the_registry_page() {
    let license = License {
        name: "serde".to_string(),
        version: "1.0.0".to_string(),
        authors: None,
        repository: None,
        license: None,
        license_file: None,
        description: None,
    };
    let entry = build_dependency_license(license);
    assert_eq!(entry.text, "https://crates.io/crates/serde を参照してください。");
}

#[test]
fn engine_manifest_carries_fixed_identity() {
    let manifest = build_engine_manifest("iconbytes".to_string(), vec![]);
    assert_eq!(manifest.manifest_version, "0.13.1");
    assert_eq!(manifest.name, "AIVoice to Voicevox bridge");
    assert_eq!(manifest.brand_name, "AIVoiceVox");
    assert_eq!(manifest.uuid, "14f4bd0b-99ac-48cc-8171-d93439f16b33");
    assert_eq!(manifest.default_sampling_rate, 48000);
    assert_eq!(manifest.icon, "iconbytes");
    assert_eq!(manifest.update_infos.len(), 2);
    assert_eq!(manifest.update_infos[0].version, "0.1.1");
    assert_eq!(manifest.update_infos[1].version, "0.1.0");
    assert!(manifest.supported_features.adjust_speed_scale);
    assert!(!manifest.supported_features.synthesis_morphing);
}

#[test]
fn version_body_names_both_versions() {
    assert_eq!(
        aivoice_vox::info::compose_version("0.1.0", "1.4.3.0"),
        "0.1.0 (1.4.3.0)"
    );
}
