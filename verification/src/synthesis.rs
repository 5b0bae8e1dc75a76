//! The synthesis request pipeline's decision core: resolving a composite
//! speaker/style id and building the shared voice preset for it.
//!
//! A composite id encodes `speaker_id * 10 + style_ordinal`. Resolution
//! must find exactly one speaker and one style or fail — an unknown
//! ordinal, an unknown speaker id, or a style the speaker does not carry
//! are each a reported error, never a silent default substitution.

use vstd::prelude::*;
use crate::aivoice::{Speaker, Style, spec_style_letter};
use crate::error::Error;
use crate::host::{VoicePreset, VoicePresetStyle, MergedVoiceContainer, SCALE_ONE_BITS,
    SCALE_ZERO_BITS};

verus! {

/// The query parameter of a synthesis request: the composite id.
#[derive(Debug, Clone, Copy)]
pub struct AudioQueryQuery {
    pub speaker: u32,
}

/// Whether some speaker in the list carries the given numeric id.
pub open spec fn has_speaker_with_id(ss: Seq<Speaker>, id: u32) -> bool {
    exists|j: int| 0 <= j < ss.len() && (#[trigger] ss[j]).id == id
}

/// Finds the first speaker with the given numeric id, in roster order.
pub fn find_speaker_by_id(speakers: &Vec<Speaker>, id: u32) -> (r: Option<usize>)
    ensures
        match r {
            Some(i) => 0 <= i < speakers@.len() && speakers@[i as int].id == id && forall|j: int|
                0 <= j < i ==> (#[trigger] speakers@[j]).id != id,
            None => !has_speaker_with_id(speakers@, id),
        },
{
    let mut i: usize = 0;
    while i < speakers.len()
        invariant
            i <= speakers@.len(),
            forall|j: int| 0 <= j < i ==> (#[trigger] speakers@[j]).id != id,
        decreases speakers@.len() - i,
    {
        if speakers[i].id == id {
            return Some(i);
        }
        i = i + 1;
    }
    None
}

/// Whether a style list carries the given style.
pub fn styles_contain(styles: &Vec<Style>, style: Style) -> (r: bool)
    ensures
        r <==> styles@.contains(style),
{
    let mut i: usize = 0;
    while i < styles.len()
        invariant
            i <= styles@.len(),
            forall|j: int| 0 <= j < i ==> styles@[j] != style,
        decreases styles@.len() - i,
    {
        if styles[i] == style {
            return true;
        }
        i = i + 1;
    }
    false
}

/// Resolves a composite id against the speaker list: the style is the
/// decimal ordinal digit, the speaker is the first one carrying the
/// remaining id. Resolution succeeds exactly when the ordinal names one
/// of the four styles, a speaker with that id exists, and that speaker
/// carries the style; an unknown ordinal or a style the speaker lacks is
/// a synthesis error, a missing speaker is the speaker-not-found error.
pub fn resolve_composite(speakers: &Vec<Speaker>, composite: u32) -> (r: Result<
    (usize, Style),
    Error,
>)
    ensures
        match r {
            Ok(t) => {
                &&& Style::spec_from_ordinal(composite % 10) == Some(t.1)
                &&& 0 <= t.0 < speakers@.len()
                &&& speakers@[t.0 as int].id == composite / 10
                &&& forall|j: int| 0 <= j < t.0 ==> (#[trigger] speakers@[j]).id != composite / 10
                &&& speakers@[t.0 as int].styles@.contains(t.1)
            },
            Err(e) => {
                &&& (e is SynthesisFailed || e is SpeakerNotFound)
                &&& Style::spec_from_ordinal(composite % 10) is None ==> e is SynthesisFailed
                &&& (Style::spec_from_ordinal(composite % 10) is Some && !has_speaker_with_id(
                    speakers@,
                    composite / 10,
                )) ==> e is SpeakerNotFound
            },
        },
        r is Ok <==> (Style::spec_from_ordinal(composite % 10) matches Some(st)
            && has_speaker_with_id(speakers@, composite / 10) && (exists|j: int|
            0 <= j < speakers@.len() && (#[trigger] speakers@[j]).id == composite / 10 && (
            forall|k: int| 0 <= k < j ==> (#[trigger] speakers@[k]).id != composite / 10)
                && speakers@[j].styles@.contains(st))),
{
    let style = match Style::from_ordinal(composite % 10) {
        Some(st) => st,
        None => {
            return Err(Error::SynthesisFailed(String::from_str("invalid style id")));
        },
    };
    let idx = match find_speaker_by_id(speakers, composite / 10) {
        Some(i) => i,
        None => {
            return Err(Error::SpeakerNotFound);
        },
    };
    if !styles_contain(&speakers[idx].styles, style) {
        return Err(Error::SynthesisFailed(String::from_str("style not available for speaker")));
    }
    Ok((idx, style))
}

/// Builds the shared voice preset for one request: the fixed preset
/// name, the resolved speaker's voice, the request's scale values passed
/// through untouched, the fixed long pauses, a weight of one on the
/// requested style and zero on every other style of the speaker, and a
/// merged-voice descriptor naming the same voice without any merging.
pub fn build_synthesis_preset(
    speaker: &Speaker,
    style: Style,
    volume: u64,
    speed: u64,
    pitch: u64,
) -> (r: VoicePreset)
    ensures
        r.preset_name@ == "AIVoiceVox"@,
        r.voice_name == speaker.internal_name,
        r.volume == volume,
        r.speed == speed,
        r.pitch == pitch,
        r.pitch_range == SCALE_ONE_BITS,
        r.middle_pause == 750,
        r.long_pause == 750,
        r.styles@.len() == speaker.styles@.len(),
        forall|i: int|
            0 <= i < speaker.styles@.len() ==> (#[trigger] r.styles@[i]).name@
                == spec_style_letter(speaker.styles@[i]) && r.styles@[i].value == (
            if speaker.styles@[i] == style {
                SCALE_ONE_BITS
            } else {
                SCALE_ZERO_BITS
            }),
        r.merged_voice_container.base_pitch_voice_name == speaker.internal_name,
        r.merged_voice_container.merged_voices@.len() == 0,
{
    let mut styles: Vec<VoicePresetStyle> = Vec::new();
    let mut i: usize = 0;
    while i < speaker.styles.len()
        invariant
            i <= speaker.styles@.len(),
            styles@.len() == i,
            forall|j: int|
                0 <= j < i ==> (#[trigger] styles@[j]).name@ == spec_style_letter(
                    speaker.styles@[j],
                ) && styles@[j].value == (if speaker.styles@[j] == style {
                    SCALE_ONE_BITS
                } else {
                    SCALE_ZERO_BITS
                }),
        decreases speaker.styles@.len() - i,
    {
        let s = speaker.styles[i];
        let value = if s == style {
            SCALE_ONE_BITS
        } else {
            SCALE_ZERO_BITS
        };
        styles.push(VoicePresetStyle { name: String::from_str(s.letter()), value });
        i = i + 1;
    }
    VoicePreset {
        preset_name: String::from_str("AIVoiceVox"),
        voice_name: speaker.internal_name.clone(),
        volume,
        speed,
        pitch,
        pitch_range: SCALE_ONE_BITS,
        middle_pause: 750,
        long_pause: 750,
        styles,
        merged_voice_container: MergedVoiceContainer {
            base_pitch_voice_name: speaker.internal_name.clone(),
            merged_voices: Vec::new(),
        },
    }
}

} // verus!
