//! The error kinds of the orchestration pipeline and their user-visible
//! messages. Causes are carried as plain text.

use vstd::prelude::*;

verus! {

/// Every way a setup, shutdown or synthesis operation can fail. Each
/// remote-call failure surfaces as its own kind; none is retried
/// silently.
#[derive(Debug, Clone)]
pub enum Error {
    InitializeFailed,
    StartHostFailed,
    ConnectFailed,
    VersionFailed,
    StatusFailed,
    SpeakersFailed,
    ProcessNotFound,
    ApiFailed(String),
    TerminateHostFailed,
    SettingsParseFailed(String),
    WriteDictionaryFailed(String),
    ReadImageFailed(String),
    ReadDictionaryFailed(String),
    DictionaryOperationFailed(String),
    AnalyzeFailed(String),
    SynthesisFailed(String),
    SpeakerNotFound,
}

/// The human-readable message of each error kind. Only the named remote
/// operation of `ApiFailed` appears in the message; other causes are
/// reported separately.
pub open spec fn spec_message(e: Error) -> Seq<char> {
    match e {
        Error::InitializeFailed => "A.I.Voiceの初期化に失敗しました"@,
        Error::StartHostFailed => "A.I.Voiceの起動に失敗しました"@,
        Error::ConnectFailed => "A.I.Voiceへの接続に失敗しました"@,
        Error::VersionFailed => "A.I.Voiceのバージョン取得に失敗しました"@,
        Error::StatusFailed => "A.I.Voiceのステータス取得に失敗しました"@,
        Error::SpeakersFailed => "A.I.Voiceのスピーカー取得に失敗しました"@,
        Error::ProcessNotFound => "A.I.Voiceのプロセスを見つけられませんでした"@,
        Error::ApiFailed(op) => "A.I.VoiceのAPI呼び出しに失敗しました："@ + op@,
        Error::TerminateHostFailed => "A.I.Voiceの終了に失敗しました"@,
        Error::SettingsParseFailed(_) => "設定をパースできませんでした"@,
        Error::WriteDictionaryFailed(_) => "辞書を書き込めませんでした"@,
        Error::ReadImageFailed(_) => "画像を読み込めませんでした"@,
        Error::ReadDictionaryFailed(_) => "辞書を読み込めませんでした"@,
        Error::DictionaryOperationFailed(_) => "辞書の操作に失敗しました"@,
        Error::AnalyzeFailed(_) => "解析中にエラーが発生しました"@,
        Error::SynthesisFailed(_) => "音声合成中にエラーが発生しました"@,
        Error::SpeakerNotFound => "話者が見つかりませんでした"@,
    }
}

impl Error {
    /// The user-visible message of this error.
    pub fn message(&self) -> (r: String)
        ensures
            r@ == spec_message(*self),
    {
        match self {
            Error::InitializeFailed => String::from_str("A.I.Voiceの初期化に失敗しました"),
            Error::StartHostFailed => String::from_str("A.I.Voiceの起動に失敗しました"),
            Error::ConnectFailed => String::from_str("A.I.Voiceへの接続に失敗しました"),
            Error::VersionFailed => String::from_str("A.I.Voiceのバージョン取得に失敗しました"),
            Error::StatusFailed => String::from_str("A.I.Voiceのステータス取得に失敗しました"),
            Error::SpeakersFailed => String::from_str("A.I.Voiceのスピーカー取得に失敗しました"),
            Error::ProcessNotFound => String::from_str(
                "A.I.Voiceのプロセスを見つけられませんでした",
            ),
            Error::ApiFailed(op) => String::from_str(
                "A.I.VoiceのAPI呼び出しに失敗しました：",
            ).concat(op.as_str()),
            Error::TerminateHostFailed => String::from_str("A.I.Voiceの終了に失敗しました"),
            Error::SettingsParseFailed(_) => String::from_str("設定をパースできませんでした"),
            Error::WriteDictionaryFailed(_) => String::from_str("辞書を書き込めませんでした"),
            Error::ReadImageFailed(_) => String::from_str("画像を読み込めませんでした"),
            Error::ReadDictionaryFailed(_) => String::from_str("辞書を読み込めませんでした"),
            Error::DictionaryOperationFailed(_) => String::from_str("辞書の操作に失敗しました"),
            Error::AnalyzeFailed(_) => String::from_str("解析中にエラーが発生しました"),
            Error::SynthesisFailed(_) => String::from_str("音声合成中にエラーが発生しました"),
            Error::SpeakerNotFound => String::from_str("話者が見つかりませんでした"),
        }
    }

    /// The structured body the boundary serializes for this error.
    pub fn to_response(&self) -> (r: ErrorResponse)
        ensures
            r.error@ == spec_message(*self),
    {
        ErrorResponse { error: self.message() }
    }
}

/// The JSON error body of the synthesis surface: one message field.
#[derive(Debug, Clone)]
pub struct ErrorResponse {
    pub error: String,
}

} // verus!
