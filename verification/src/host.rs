//! The host automation boundary: status codes, edit modes, voice preset
//! records, and the decisions of the connection lifecycle state machine.
//!
//! The remote calls themselves (start, connect, status, preset get/set)
//! are made by the unverified process shell; this module fixes what each
//! observed status means for the next step.

use vstd::prelude::*;

verus! {

/// Status of the host process as reported by its automation surface.
#[derive(Clone, Copy, Debug, PartialEq, Eq, Structural)]
pub enum HostStatus {
    Error,
    NotRunning,
    NotConnected,
    Idle,
    Busy,
}

impl HostStatus {
    /// Decodes the raw status code of the automation surface.
    /// Codes outside the published range have no meaning and yield `None`.
    pub fn from_code(code: i32) -> (r: Option<HostStatus>)
        ensures
            r == (match code {
                -1 => Some(HostStatus::Error),
                0 => Some(HostStatus::NotRunning),
                1 => Some(HostStatus::NotConnected),
                2 => Some(HostStatus::Idle),
                3 => Some(HostStatus::Busy),
                _ => None::<HostStatus>,
            }),
    {
        match code {
            -1 => Some(HostStatus::Error),
            0 => Some(HostStatus::NotRunning),
            1 => Some(HostStatus::NotConnected),
            2 => Some(HostStatus::Idle),
            3 => Some(HostStatus::Busy),
            _ => None,
        }
    }
}

/// Text-edit mode of the host UI.
#[derive(Clone, Copy, Debug, PartialEq, Eq, Structural)]
pub enum TextEditMode {
    Text,
    Line,
}

impl TextEditMode {
    /// The wire code the automation surface expects for this mode.
    pub fn code(self) -> (r: i32)
        ensures
            r == (match self {
                TextEditMode::Text => 0i32,
                TextEditMode::Line => 1i32,
            }),
    {
        match self {
            TextEditMode::Text => 0,
            TextEditMode::Line => 1,
        }
    }
}

/// What the connection guard must do next, given the status observed
/// before a remote call.
#[derive(Clone, Copy, Debug, PartialEq, Eq, Structural)]
pub enum GuardAction {
    /// The host vanished under us: its in-memory state is gone and the
    /// session cannot heal itself. Unrecoverable.
    FatalNotRunning,
    /// Already connected and serviceable; proceed with the call.
    Proceed,
    /// Poll the status until it reaches `NotConnected`, then connect.
    AwaitAndConnect,
}

/// What the launch sequence must do, given the status observed at start.
#[derive(Clone, Copy, Debug, PartialEq, Eq, Structural)]
pub enum LaunchAction {
    /// Start the host process, then poll until it accepts a connection.
    StartThenAwait,
    /// Another session is already live and idle; nothing to do.
    AlreadyLive,
    /// The host is coming up (or busy); poll until it accepts a connection.
    AwaitOnly,
}

/// Decision of the reconnect-if-required guard run before every remote
/// call: `NotRunning` is an unrecoverable crash, `Idle`/`Busy` need no
/// action, anything else waits for `NotConnected` and connects.
pub fn guard_action(status: HostStatus) -> (a: GuardAction)
    ensures
        a == (match status {
            HostStatus::NotRunning => GuardAction::FatalNotRunning,
            HostStatus::Idle => GuardAction::Proceed,
            HostStatus::Busy => GuardAction::Proceed,
            HostStatus::Error => GuardAction::AwaitAndConnect,
            HostStatus::NotConnected => GuardAction::AwaitAndConnect,
        }),
{
    match status {
        HostStatus::NotRunning => GuardAction::FatalNotRunning,
        HostStatus::Idle | HostStatus::Busy => GuardAction::Proceed,
        HostStatus::Error | HostStatus::NotConnected => GuardAction::AwaitAndConnect,
    }
}

/// Decision of the launch sequence: start the process only when it is not
/// running, skip the whole sequence when an idle session is already live.
pub fn launch_action(status: HostStatus) -> (a: LaunchAction)
    ensures
        a == (match status {
            HostStatus::NotRunning => LaunchAction::StartThenAwait,
            HostStatus::Idle => LaunchAction::AlreadyLive,
            HostStatus::Error => LaunchAction::AwaitOnly,
            HostStatus::NotConnected => LaunchAction::AwaitOnly,
            HostStatus::Busy => LaunchAction::AwaitOnly,
        }),
{
    match status {
        HostStatus::NotRunning => LaunchAction::StartThenAwait,
        HostStatus::Idle => LaunchAction::AlreadyLive,
        _ => LaunchAction::AwaitOnly,
    }
}

/// The status polling loops stop exactly when the host is ready to accept
/// a connection.
pub fn polling_done(status: HostStatus) -> (r: bool)
    ensures
        r <==> status == HostStatus::NotConnected,
{
    status == HostStatus::NotConnected
}

/// At shutdown the host process is terminated only when it sits idle.
pub fn should_terminate_on_shutdown(status: HostStatus) -> (r: bool)
    ensures
        r <==> status == HostStatus::Idle,
{
    status == HostStatus::Idle
}

/// Handle to the host automation session. The session is established by
/// the process shell, which passes the machine name it was given.
#[derive(Debug, Clone)]
pub struct Host {
    pub name: String,
}

impl Host {
    pub fn new(name: String) -> (r: Host)
        ensures
            r.name == name,
    {
        Host { name }
    }
}

/// Bit pattern of the double-precision value one, the neutral scale.
pub const SCALE_ONE_BITS: u64 = 0x3FF0_0000_0000_0000;

/// Bit pattern of the double-precision value zero, the disabled weight.
pub const SCALE_ZERO_BITS: u64 = 0;

/// A voice preset record as exchanged with the host. Scale fields carry
/// IEEE 754 double bit patterns: the logic never computes with them, it
/// only routes them, and the process shell converts at the boundary.
#[derive(Debug, Clone)]
pub struct VoicePreset {
    pub preset_name: String,
    pub voice_name: String,
    pub volume: u64,
    pub speed: u64,
    pub pitch: u64,
    pub pitch_range: u64,
    pub middle_pause: i64,
    pub long_pause: i64,
    pub styles: Vec<VoicePresetStyle>,
    pub merged_voice_container: MergedVoiceContainer,
}

/// Weight of one style inside a preset; the weight is an IEEE 754 double
/// bit pattern, either one or zero — styles are exclusive, never blended.
#[derive(Debug, Clone)]
pub struct VoicePresetStyle {
    pub name: String,
    pub value: u64,
}

/// The merged-voice descriptor the preset schema requires; no merging is
/// actually used, the base voice names the preset's own voice.
#[derive(Debug, Clone)]
pub struct MergedVoiceContainer {
    pub base_pitch_voice_name: String,
    pub merged_voices: Vec<MergedVoice>,
}

#[derive(Debug, Clone)]
pub struct MergedVoice {
    pub voice_name: String,
}

} // verus!
