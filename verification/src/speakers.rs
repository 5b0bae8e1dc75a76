//! The speakers listing of the synthesis surface: speakers and styles
//! with their composite ids, and the case-insensitive UUID lookup used
//! by the per-speaker info endpoint.

use vstd::prelude::*;
use crate::aivoice::{Speaker, spec_style_ordinal};
use crate::text::{ascii_case_eq, eq_ignore_ascii_case};
use crate::uuid_text::{uuid_v5_oid_of, spec_hyphenated};

verus! {

/// A speaker as listed by the surface.
#[derive(Debug, Clone)]
pub struct VvSpeaker {
    pub name: String,
    pub speaker_uuid: String,
    pub styles: Vec<VvStyle>,
    pub version: String,
}

/// One style of a listed speaker, under its composite id.
#[derive(Debug, Clone)]
pub struct VvStyle {
    pub name: String,
    pub id: u32,
}

/// The per-speaker info body.
#[derive(Debug, Clone)]
pub struct VvSpeakerInfo {
    pub policy: String,
    pub portrait: String,
    pub style_infos: Vec<VvStyleInfo>,
}

/// Icon and portrait assets of one style.
#[derive(Debug, Clone)]
pub struct VvStyleInfo {
    pub id: u32,
    pub icon: String,
    pub portrait: String,
    pub voice_samples: Vec<String>,
}

/// Feature flags of a listed speaker.
#[derive(Debug, Clone)]
pub struct SupportedFeatures {
    pub permitted_synthesis_morphing: String,
}

/// The query of the per-speaker info endpoint.
#[derive(Debug, Clone)]
pub struct SpeakerInfoQuery {
    pub speaker_uuid: String,
}

/// The composite id of one style of a speaker: the speaker id times ten
/// plus the style's single-digit ordinal.
pub fn composite_style_id(speaker_id: u32, style: crate::aivoice::Style) -> (r: u32)
    requires
        speaker_id < 65535,
    ensures
        r == speaker_id * 10 + spec_style_ordinal(style),
{
    speaker_id * 10 + style.ordinal()
}

/// What the style list of a listed speaker must hold: one entry per
/// style, named in Japanese, under its composite id.
pub open spec fn vv_styles_match(vs: Seq<VvStyle>, sp: Speaker) -> bool {
    &&& vs.len() == sp.styles@.len()
    &&& forall|j: int|
        0 <= j < vs.len() ==> (#[trigger] vs[j]).name@ == (match sp.styles@[j] {
            crate::aivoice::Style::Normal => "ノーマル"@,
            crate::aivoice::Style::Joy => "喜び"@,
            crate::aivoice::Style::Anger => "怒り"@,
            crate::aivoice::Style::Sorrow => "悲しみ"@,
        }) && vs[j].id == sp.id * 10 + spec_style_ordinal(sp.styles@[j])
}

/// What a listed speaker must hold: the display name, the hyphenated
/// deterministic UUID, the host version, and the matching style list.
pub open spec fn vv_speaker_matches(v: VvSpeaker, sp: Speaker, version: Seq<char>) -> bool {
    &&& v.name == sp.display_name
    &&& v.speaker_uuid@ == spec_hyphenated(uuid_v5_oid_of(sp.internal_name@))
    &&& v.version@ == version
    &&& vv_styles_match(v.styles@, sp)
}

/// Builds the style list of one speaker.
fn build_vv_styles(sp: &Speaker) -> (r: Vec<VvStyle>)
    requires
        sp.wf(),
    ensures
        vv_styles_match(r@, *sp),
{
    let mut out: Vec<VvStyle> = Vec::new();
    let mut j: usize = 0;
    while j < sp.styles.len()
        invariant
            sp.wf(),
            j <= sp.styles@.len(),
            out@.len() == j,
            forall|k: int|
                0 <= k < j ==> (#[trigger] out@[k]).name@ == (match sp.styles@[k] {
                    crate::aivoice::Style::Normal => "ノーマル"@,
                    crate::aivoice::Style::Joy => "喜び"@,
                    crate::aivoice::Style::Anger => "怒り"@,
                    crate::aivoice::Style::Sorrow => "悲しみ"@,
                }) && out@[k].id == sp.id * 10 + spec_style_ordinal(sp.styles@[k]),
        decreases sp.styles@.len() - j,
    {
        let st = sp.styles[j];
        let id = composite_style_id(sp.id, st);
        out.push(VvStyle { name: String::from_str(st.to_japanese()), id });
        j = j + 1;
    }
    out
}

/// Builds one listed speaker.
pub fn build_vv_speaker(sp: &Speaker, version: &String) -> (r: VvSpeaker)
    requires
        sp.wf(),
    ensures
        vv_speaker_matches(r, *sp, version@),
{
    VvSpeaker {
        name: sp.display_name.clone(),
        speaker_uuid: sp.uuid_text(),
        styles: build_vv_styles(sp),
        version: version.clone(),
    }
}

/// Builds the whole speakers listing, in roster order.
pub fn build_vv_speakers(speakers: &Vec<Speaker>, version: &String) -> (r: Vec<VvSpeaker>)
    requires
        forall|i: int| 0 <= i < speakers@.len() ==> (#[trigger] speakers@[i]).wf(),
    ensures
        r@.len() == speakers@.len(),
        forall|i: int|
            0 <= i < speakers@.len() ==> vv_speaker_matches(
                #[trigger] r@[i],
                speakers@[i],
                version@,
            ),
{
    let mut out: Vec<VvSpeaker> = Vec::new();
    let mut i: usize = 0;
    while i < speakers.len()
        invariant
            i <= speakers@.len(),
            out@.len() == i,
            forall|k: int| 0 <= k < speakers@.len() ==> (#[trigger] speakers@[k]).wf(),
            forall|k: int|
                0 <= k < i ==> vv_speaker_matches(#[trigger] out@[k], speakers@[k], version@),
        decreases speakers@.len() - i,
    {
        let v = build_vv_speaker(&speakers[i], version);
        out.push(v);
        i = i + 1;
    }
    out
}

/// Whether a speaker's hyphenated UUID matches the queried one, up to
/// ASCII letter case.
pub open spec fn speaker_uuid_matches(sp: Speaker, queried: Seq<char>) -> bool {
    ascii_case_eq(spec_hyphenated(uuid_v5_oid_of(sp.internal_name@)), queried)
}

/// Finds the first speaker whose UUID text matches the queried one,
/// ignoring ASCII letter case; `None` exactly when no speaker matches.
pub fn find_speaker_by_uuid(speakers: &Vec<Speaker>, queried: &str) -> (r: Option<usize>)
    ensures
        match r {
            Some(i) => 0 <= i < speakers@.len() && speaker_uuid_matches(
                speakers@[i as int],
                queried@,
            ) && forall|j: int|
                0 <= j < i ==> !speaker_uuid_matches(#[trigger] speakers@[j], queried@),
            None => forall|j: int|
                0 <= j < speakers@.len() ==> !speaker_uuid_matches(
                    #[trigger] speakers@[j],
                    queried@,
                ),
        },
{
    let mut i: usize = 0;
    while i < speakers.len()
        invariant
            i <= speakers@.len(),
            forall|j: int| 0 <= j < i ==> !speaker_uuid_matches(#[trigger] speakers@[j], queried@),
        decreases speakers@.len() - i,
    {
        let u = speakers[i].uuid_text();
        if eq_ignore_ascii_case(u.as_str(), queried) {
            return Some(i);
        }
        i = i + 1;
    }
    None
}

} // verus!
