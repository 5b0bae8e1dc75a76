//! The engine metadata of the synthesis surface: version, manifest and
//! device support. The embedded assets (icon, license data) are handed
//! in by the process shell; this module builds the bodies.

use vstd::prelude::*;

verus! {

/// One dependency as recorded in the embedded license data.
#[derive(Debug, Clone)]
pub struct License {
    pub name: String,
    pub version: String,
    pub authors: Option<String>,
    pub repository: Option<String>,
    pub license: Option<String>,
    pub license_file: Option<String>,
    pub description: Option<String>,
}

/// The engine manifest body.
#[derive(Debug, Clone)]
pub struct EngineManifest {
    pub manifest_version: String,
    pub name: String,
    pub brand_name: String,
    pub uuid: String,
    pub url: String,
    pub icon: String,
    pub default_sampling_rate: i64,
    pub terms_of_service: String,
    pub update_infos: Vec<UpdateInfo>,
    pub dependency_licenses: Vec<DependencyLicense>,
    pub supported_features: SupportedFeatures,
}

/// One release note of the manifest.
#[derive(Debug, Clone)]
pub struct UpdateInfo {
    pub version: String,
    pub descriptions: Vec<String>,
    pub contributors: Vec<String>,
}

/// One dependency license entry of the manifest.
#[derive(Debug, Clone)]
pub struct DependencyLicense {
    pub name: String,
    pub version: Option<String>,
    pub license: Option<String>,
    pub text: String,
}

/// The feature flags of the manifest.
#[derive(Debug, Clone)]
pub struct SupportedFeatures {
    pub adjust_mora_pitch: bool,
    pub adjust_phoneme_length: bool,
    pub adjust_speed_scale: bool,
    pub adjust_pitch_scale: bool,
    pub adjust_intonation_scale: bool,
    pub adjust_volume_scale: bool,
    pub interrogative_upspeak: bool,
    pub synthesis_morphing: bool,
    pub manage_library: bool,
}

/// The device support body.
#[derive(Debug, Clone)]
pub struct SupportedDeveices {
    pub cpu: bool,
    pub cuda: bool,
    pub dml: bool,
}

/// The devices this engine synthesizes on: the processor alone.
pub fn supported_devices() -> (r: SupportedDeveices)
    ensures
        r.cpu,
        !r.cuda,
        !r.dml,
{
    SupportedDeveices { cpu: true, cuda: false, dml: false }
}

/// The version body of the surface: this engine's own version with the
/// host's version in parentheses behind it.
pub fn compose_version(engine_version: &str, host_version: &str) -> (r: String)
    ensures
        r@ == engine_version@ + " ("@ + host_version@ + ")"@,
{
    let mut out = String::from_str(engine_version);
    out.append(" (");
    out.append(host_version);
    out.append(")");
    out
}

/// The license reference text of one dependency: its repository when one
/// is recorded, its registry page otherwise.
pub open spec fn spec_license_text(name: Seq<char>, repository: Option<String>) -> Seq<char> {
    match repository {
        Some(rep) => "<"@ + rep@ + "> を参照してください。"@,
        None => "https://crates.io/crates/"@ + name + " を参照してください。"@,
    }
}

/// Builds the manifest entry of one recorded dependency license.
pub fn build_dependency_license(license: License) -> (r: DependencyLicense)
    ensures
        r.name == license.name,
        r.version == Some(license.version),
        r.license == license.license,
        r.text@ == spec_license_text(license.name@, license.repository),
{
    let text = match &license.repository {
        Some(rep) => {
            let mut t = String::from_str("<");
            t.append(rep.as_str());
            t.append("> を参照してください。");
            t
        },
        None => {
            let mut t = String::from_str("https://crates.io/crates/");
            t.append(license.name.as_str());
            t.append(" を参照してください。");
            t
        },
    };
    DependencyLicense {
        name: license.name,
        version: Some(license.version),
        license: license.license,
        text,
    }
}

/// Builds the engine manifest around the embedded icon and the collected
/// dependency licenses: fixed identity, the default output rate, two
/// release notes, and the feature flags of this engine.
pub fn build_engine_manifest(icon: String, dependency_licenses: Vec<DependencyLicense>) -> (r:
    EngineManifest)
    ensures
        r.manifest_version@ == "0.13.1"@,
        r.name@ == "AIVoice to Voicevox bridge"@,
        r.brand_name@ == "AIVoiceVox"@,
        r.uuid@ == "14f4bd0b-99ac-48cc-8171-d93439f16b33"@,
        r.url@ == "https://github.com/sevenc-nanashi/aivoice-vox"@,
        r.icon == icon,
        r.default_sampling_rate == 48000,
        r.terms_of_service@
            == "[A.I.VOICE Editor API 利用規約](https://aivoice.jp/manual/editor/api.html#termsandconditions) を参照してください。"@,
        r.update_infos@.len() == 2,
        r.update_infos@[0].version@ == "0.1.1"@,
        r.update_infos@[0].descriptions@.len() == 1,
        r.update_infos@[0].descriptions@[0]@ == "Recotte Studioに対応"@,
        r.update_infos@[0].contributors@.len() == 1,
        r.update_infos@[0].contributors@[0]@ == "sevenc-nanashi"@,
        r.update_infos@[1].version@ == "0.1.0"@,
        r.update_infos@[1].descriptions@.len() == 1,
        r.update_infos@[1].descriptions@[0]@ == "初期リリース"@,
        r.update_infos@[1].contributors@.len() == 1,
        r.update_infos@[1].contributors@[0]@ == "sevenc-nanashi"@,
        r.dependency_licenses == dependency_licenses,
        r.supported_features.adjust_speed_scale,
        r.supported_features.adjust_pitch_scale,
        r.supported_features.adjust_intonation_scale,
        r.supported_features.adjust_volume_scale,
        !r.supported_features.adjust_mora_pitch,
        !r.supported_features.adjust_phoneme_length,
        !r.supported_features.interrogative_upspeak,
        !r.supported_features.synthesis_morphing,
        !r.supported_features.manage_library,
{
    let mut first_desc: Vec<String> = Vec::new();
    first_desc.push(String::from_str("Recotte Studioに対応"));
    let mut first_contrib: Vec<String> = Vec::new();
    first_contrib.push(String::from_str("sevenc-nanashi"));
    let mut second_desc: Vec<String> = Vec::new();
    second_desc.push(String::from_str("初期リリース"));
    let mut second_contrib: Vec<String> = Vec::new();
    second_contrib.push(String::from_str("sevenc-nanashi"));
    let mut update_infos: Vec<UpdateInfo> = Vec::new();
    update_infos.push(
        UpdateInfo {
            version: String::from_str("0.1.1"),
            descriptions: first_desc,
            contributors: first_contrib,
        },
    );
    update_infos.push(
        UpdateInfo {
            version: String::from_str("0.1.0"),
            descriptions: second_desc,
            contributors: second_contrib,
        },
    );
    EngineManifest {
        manifest_version: String::from_str("0.13.1"),
        name: String::from_str("AIVoice to Voicevox bridge"),
        brand_name: String::from_str("AIVoiceVox"),
        uuid: String::from_str("14f4bd0b-99ac-48cc-8171-d93439f16b33"),
        url: String::from_str("https://github.com/sevenc-nanashi/aivoice-vox"),
        icon,
        default_sampling_rate: 48000,
        terms_of_service: String::from_str(
            "[A.I.VOICE Editor API 利用規約](https://aivoice.jp/manual/editor/api.html#termsandconditions) を参照してください。",
        ),
        update_infos,
        dependency_licenses,
        supported_features: SupportedFeatures {
            adjust_mora_pitch: false,
            adjust_phoneme_length: false,
            adjust_speed_scale: true,
            adjust_pitch_scale: true,
            adjust_intonation_scale: true,
            adjust_volume_scale: true,
            interrogative_upspeak: false,
            synthesis_morphing: false,
            manage_library: false,
        },
    }
}

} // verus!
