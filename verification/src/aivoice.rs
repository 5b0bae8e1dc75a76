//! Speakers, styles and phrases: the voice model of the orchestrated host.
//!
//! A speaker is built once at setup from a host voice preset; its numeric
//! id is a stable hash of the internal voice name, and its deterministic
//! UUID is derived from the same name. A phrase is a per-request pairing
//! of a fresh UUID (the dictionary lookup key) with a phonetic rendering.

use vstd::prelude::*;
use std::hash::Hash;
use std::hash::Hasher;
use crate::host::VoicePreset;
use crate::uuid_text::{uuid_v5_oid_of, uuid_v5_oid, random_uuid, spec_hyphenated, hyphenated};

verus! {

/// The four closed styles of the host, in their stable ordinal order.
#[derive(Clone, Copy, Debug, PartialEq, Eq, Structural, Hash)]
pub enum Style {
    Normal,
    Joy,
    Anger,
    Sorrow,
}

/// The single-letter style name used by the host's preset records.
pub open spec fn spec_style_letter(s: Style) -> Seq<char> {
    match s {
        Style::Normal => "N"@,
        Style::Joy => "J"@,
        Style::Anger => "A"@,
        Style::Sorrow => "S"@,
    }
}

/// Whether a name is one of the four single-letter style names.
pub open spec fn is_style_letter(s: Seq<char>) -> bool {
    s == "N"@ || s == "J"@ || s == "A"@ || s == "S"@
}

/// The style a single-letter name denotes (meaningful only when
/// `is_style_letter` holds of the name).
pub open spec fn spec_style_of_letter(s: Seq<char>) -> Style {
    if s == "N"@ { Style::Normal }
    else if s == "J"@ { Style::Joy }
    else if s == "A"@ { Style::Anger }
    else { Style::Sorrow }
}

impl Style {
    /// The Japanese display name of the style.
    pub fn to_japanese(self) -> (r: &'static str)
        ensures
            r@ == (match self {
                Style::Normal => "ノーマル"@,
                Style::Joy => "喜び"@,
                Style::Anger => "怒り"@,
                Style::Sorrow => "悲しみ"@,
            }),
    {
        match self {
            Style::Normal => "ノーマル",
            Style::Joy => "喜び",
            Style::Anger => "怒り",
            Style::Sorrow => "悲しみ",
        }
    }

    /// The single-letter name of the style, as the host's presets carry it.
    pub fn letter(self) -> (r: &'static str)
        ensures
            r@ == spec_style_letter(self),
    {
        match self {
            Style::Normal => "N",
            Style::Joy => "J",
            Style::Anger => "A",
            Style::Sorrow => "S",
        }
    }

    /// Parses a single-letter style name; `None` exactly on any other text.
    pub fn from_letter(s: &str) -> (r: Option<Style>)
        ensures
            r == (if is_style_letter(s@) { Some(spec_style_of_letter(s@)) } else { None::<Style> }),
    {
        proof {
            reveal_strlit("N");
            reveal_strlit("J");
            reveal_strlit("A");
            reveal_strlit("S");
        }
        if s.unicode_len() != 1 {
            proof {
                assert(!is_style_letter(s@));
            }
            return None;
        }
        let c = s.get_char(0);
        proof {
            assert(s@ =~= seq![s@[0]]);
        }
        if c == 'N' {
            proof { assert(s@ =~= "N"@); }
            Some(Style::Normal)
        } else if c == 'J' {
            proof { assert(s@ =~= "J"@); }
            Some(Style::Joy)
        } else if c == 'A' {
            proof { assert(s@ =~= "A"@); }
            Some(Style::Anger)
        } else if c == 'S' {
            proof { assert(s@ =~= "S"@); }
            Some(Style::Sorrow)
        } else {
            proof {
                assert(!is_style_letter(s@));
            }
            None
        }
    }

    /// The stable small-integer encoding of the style, a single digit.
    pub fn ordinal(self) -> (r: u32)
        ensures
            r == spec_style_ordinal(self),
            r < 4,
    {
        match self {
            Style::Normal => 0,
            Style::Joy => 1,
            Style::Anger => 2,
            Style::Sorrow => 3,
        }
    }

    /// The style with the given ordinal, if any: the inverse of the
    /// stable small-integer encoding, defined below three and undefined
    /// above.
    pub open spec fn spec_from_ordinal(n: u32) -> Option<Style> {
        match n {
            0u32 => Some(Style::Normal),
            1u32 => Some(Style::Joy),
            2u32 => Some(Style::Anger),
            3u32 => Some(Style::Sorrow),
            _ => None::<Style>,
        }
    }

    /// The style with the given ordinal; `None` exactly above three.
    pub fn from_ordinal(n: u32) -> (r: Option<Style>)
        ensures
            r == Style::spec_from_ordinal(n),
    {
        match n {
            0 => Some(Style::Normal),
            1 => Some(Style::Joy),
            2 => Some(Style::Anger),
            3 => Some(Style::Sorrow),
            _ => None,
        }
    }
}

/// The stable small-integer encoding of a style.
pub open spec fn spec_style_ordinal(s: Style) -> u32 {
    match s {
        Style::Normal => 0u32,
        Style::Joy => 1u32,
        Style::Anger => 2u32,
        Style::Sorrow => 3u32,
    }
}

/// Relies on `fxhash::FxHasher` over the name's bytes: a fixed algorithm,
/// but one whose value depends on the machine's word size and byte order,
/// so nothing is promised of the value.
#[verifier::external_body]
fn fx_hash(name: &String) -> u64 {
    let mut h = fxhash::FxHasher::default();
    name.hash(&mut h);
    h.finish()
}

/// Folds a raw name hash into the numeric speaker id: the hash reduced
/// modulo 65535, so the id always leaves a free decimal digit for the
/// style ordinal in the composite id.
pub fn speaker_id_from_hash(h: u64) -> (r: u32)
    ensures
        r == h % 65535,
        r < 65535,
{
    (h % 65535) as u32
}

/// A speaker enumerated from the host at setup, immutable afterwards.
#[derive(Debug, Clone)]
pub struct Speaker {
    pub display_name: String,
    pub internal_name: String,
    pub id: u32,
    pub styles: Vec<Style>,
}

impl Speaker {
    /// A well-formed speaker's id leaves room for a style digit.
    pub open spec fn wf(self) -> bool {
        self.id < 65535
    }

    /// Builds the speaker of a host voice preset: display and internal
    /// names are taken from the preset, the id is the reduced name hash,
    /// and the style list is `Normal` followed by the preset's own styles.
    pub fn new(preset: VoicePreset) -> (r: Speaker)
        requires
            forall|i: int|
                0 <= i < preset.styles@.len() ==> is_style_letter(#[trigger] preset.styles@[i].name@),
        ensures
            r.wf(),
            r.display_name == preset.preset_name,
            r.internal_name == preset.voice_name,
            r.styles@.len() == preset.styles@.len() + 1,
            r.styles@[0] == Style::Normal,
            forall|i: int|
                0 <= i < preset.styles@.len()
                    ==> r.styles@[i + 1] == spec_style_of_letter(#[trigger] preset.styles@[i].name@),
    {
        let internal_name = preset.voice_name;
        let display_name = preset.preset_name;
        let h = fx_hash(&internal_name);
        let id = speaker_id_from_hash(h);
        let mut styles: Vec<Style> = Vec::new();
        styles.push(Style::Normal);
        let mut i: usize = 0;
        while i < preset.styles.len()
            invariant
                i <= preset.styles@.len(),
                styles@.len() == i + 1,
                styles@[0] == Style::Normal,
                forall|j: int|
                    0 <= j < preset.styles@.len()
                        ==> is_style_letter(#[trigger] preset.styles@[j].name@),
                forall|j: int|
                    0 <= j < i
                        ==> styles@[j + 1] == spec_style_of_letter(#[trigger] preset.styles@[j].name@),
            decreases preset.styles@.len() - i,
        {
            let parsed = Style::from_letter(preset.styles[i].name.as_str());
            match parsed {
                Some(st) => styles.push(st),
                None => {
                    // Unreachable: the precondition admits only style letters.
                    styles.push(Style::Normal);
                }
            }
            i = i + 1;
        }
        Speaker { display_name, internal_name, id, styles }
    }

    /// Whether every style name of a preset is a known style letter, the
    /// condition under which `new` may be called.
    pub fn preset_styles_valid(preset: &VoicePreset) -> (r: bool)
        ensures
            r <==> forall|i: int|
                0 <= i < preset.styles@.len() ==> is_style_letter(#[trigger] preset.styles@[i].name@),
    {
        let mut i: usize = 0;
        while i < preset.styles.len()
            invariant
                i <= preset.styles@.len(),
                forall|j: int| 0 <= j < i ==> is_style_letter(#[trigger] preset.styles@[j].name@),
            decreases preset.styles@.len() - i,
        {
            if Style::from_letter(preset.styles[i].name.as_str()).is_none() {
                return false;
            }
            i = i + 1;
        }
        true
    }

    /// The deterministic UUID of the speaker, derived from its internal
    /// name in the OID namespace.
    pub fn uuid(&self) -> (r: u128)
        ensures
            r == uuid_v5_oid_of(self.internal_name@),
    {
        uuid_v5_oid(&self.internal_name)
    }

    /// The hyphenated text of the speaker's deterministic UUID.
    pub fn uuid_text(&self) -> (r: String)
        ensures
            r@ == spec_hyphenated(uuid_v5_oid_of(self.internal_name@)),
    {
        hyphenated(self.uuid())
    }
}

/// Whether a running process name is the host's executable, compared
/// without regard to ASCII letter case: the test setup and shutdown use
/// to find a host process to terminate.
pub fn is_host_process_name(name: &str) -> (r: bool)
    ensures
        r <==> crate::text::ascii_case_eq(name@, "aivoiceeditor.exe"@),
{
    crate::text::eq_ignore_ascii_case(name, "aivoiceeditor.exe")
}

/// Whether the shared preset must still be created: true exactly when no
/// existing preset carries the shared preset name.
pub fn needs_default_preset(preset_names: &Vec<String>) -> (r: bool)
    ensures
        r <==> !(exists|i: int|
            0 <= i < preset_names@.len() && (#[trigger] preset_names@[i])@ == "AIVoiceVox"@),
{
    let needle = String::from_str("AIVoiceVox");
    let mut i: usize = 0;
    while i < preset_names.len()
        invariant
            i <= preset_names@.len(),
            needle@ == "AIVoiceVox"@,
            forall|j: int| 0 <= j < i ==> (#[trigger] preset_names@[j])@ != "AIVoiceVox"@,
        decreases preset_names@.len() - i,
    {
        if preset_names[i].eq(&needle) {
            return false;
        }
        i = i + 1;
    }
    true
}

/// The shared preset as first created at setup: the shared name, the
/// given voice, neutral scales, no pauses, no style weights and no
/// merged voice.
pub fn default_voice_preset(voice_name: String) -> (r: VoicePreset)
    ensures
        r.preset_name@ == "AIVoiceVox"@,
        r.voice_name == voice_name,
        r.volume == crate::host::SCALE_ONE_BITS,
        r.speed == crate::host::SCALE_ONE_BITS,
        r.pitch == crate::host::SCALE_ONE_BITS,
        r.pitch_range == crate::host::SCALE_ONE_BITS,
        r.middle_pause == 0,
        r.long_pause == 0,
        r.styles@.len() == 0,
        r.merged_voice_container.base_pitch_voice_name@ == Seq::<char>::empty(),
        r.merged_voice_container.merged_voices@.len() == 0,
{
    VoicePreset {
        preset_name: String::from_str("AIVoiceVox"),
        voice_name,
        volume: crate::host::SCALE_ONE_BITS,
        speed: crate::host::SCALE_ONE_BITS,
        pitch: crate::host::SCALE_ONE_BITS,
        pitch_range: crate::host::SCALE_ONE_BITS,
        middle_pause: 0,
        long_pause: 0,
        styles: Vec::new(),
        merged_voice_container: crate::host::MergedVoiceContainer {
            base_pitch_voice_name: String::new(),
            merged_voices: Vec::new(),
        },
    }
}

/// A per-request phrase: a fresh UUID used as the dictionary lookup key,
/// and the phonetic rendering the host must speak for that key.
#[derive(Debug, Clone)]
pub struct Phrase {
    pub uuid: u128,
    pub pronunciation: String,
}

impl Phrase {
    /// Pairs a pronunciation with a fresh random UUID.
    pub fn new(pronunciation: String) -> (r: Phrase)
        ensures
            r.pronunciation == pronunciation,
    {
        Phrase { uuid: random_uuid(), pronunciation }
    }

    /// The hyphenated text of the phrase's UUID: the exact text handed to
    /// the host as the thing to "say".
    pub fn uuid_text(&self) -> (r: String)
        ensures
            r@ == spec_hyphenated(self.uuid),
    {
        hyphenated(self.uuid)
    }
}

} // verus!
