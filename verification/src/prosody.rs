//! Rendering an accent-phrase list into the host's phonetic prosody
//! notation.
//!
//! Each accent phrase concatenates its mora texts; pitch-accent placement
//! is encoded with a rise marker `^` and a downstep marker `!`: a phrase
//! accented on its first mora gets `^` before and `!` after that mora, an
//! interior accent gets `^` after the first mora and `!` after the
//! accented one, and an accent on the last mora omits the downstep
//! entirely. Phrases are joined with a full pause marker when the phrase
//! carries a trailing pause mora, a light pause marker otherwise, and the
//! whole string is prefixed with a leading prosody-group marker.

use vstd::prelude::*;

verus! {

/// One mora of an accent phrase: its text and its phonemes.
#[derive(Debug, Clone)]
pub struct Mora {
    pub text: String,
    pub consonant: Option<String>,
    pub vowel: String,
}

/// One accent phrase: its moras, the accented mora position (counted
/// from one), whether a pause follows, and whether it is a question.
#[derive(Debug, Clone)]
pub struct AccentPhrase {
    pub moras: Vec<Mora>,
    pub accent: usize,
    pub pause_mora: Option<Mora>,
    pub is_interrogative: bool,
}

/// The texts of a mora list.
pub open spec fn mora_text_views(ms: Seq<Mora>) -> Seq<Seq<char>> {
    Seq::new(ms.len(), |i: int| ms[i].text@)
}

/// The character sequences of a text list.
pub open spec fn string_views(ts: Seq<String>) -> Seq<Seq<char>> {
    Seq::new(ts.len(), |i: int| ts[i]@)
}

/// The mora texts of a phrase.
pub open spec fn mora_texts(ap: AccentPhrase) -> Seq<Seq<char>> {
    mora_text_views(ap.moras@)
}

/// The mora texts with the accent markers inserted, by the rule table:
/// accent on the first mora wraps it in `^`/`!`; otherwise `^` follows
/// the first mora and `!` follows the accented one, except that an
/// accent on the last mora places no downstep. Single-mora phrases are
/// left unmarked.
pub open spec fn spec_marked(ts: Seq<Seq<char>>, accent: int) -> Seq<Seq<char>> {
    if ts.len() > 1 {
        if accent == 1 {
            ts.insert(1, "!"@).insert(0, "^"@)
        } else {
            let w = if accent != ts.len() {
                ts.insert(accent, "!"@)
            } else {
                ts
            };
            w.insert(1, "^"@)
        }
    } else {
        ts
    }
}

/// The rendered text of one phrase: its marked mora texts, concatenated.
pub open spec fn spec_render_phrase(ap: AccentPhrase) -> Seq<char> {
    spec_marked(mora_texts(ap), ap.accent as int).flatten()
}

/// The separator after a phrase: a full pause where a pause mora
/// follows, a light pause otherwise.
pub open spec fn spec_separator(ap: AccentPhrase) -> Seq<char> {
    if ap.pause_mora is Some {
        "$2_2"@
    } else {
        "|0"@
    }
}

/// The rendering of the first `i` phrases, each non-final phrase of the
/// whole list followed by its separator.
pub open spec fn spec_phrases_upto(aps: Seq<AccentPhrase>, i: int) -> Seq<char>
    decreases i,
{
    if i <= 0 {
        Seq::empty()
    } else {
        spec_phrases_upto(aps, i - 1) + spec_render_phrase(aps[i - 1]) + (
        if i - 1 != aps.len() - 1 {
            spec_separator(aps[i - 1])
        } else {
            Seq::<char>::empty()
        })
    }
}

/// The full pronunciation: the leading prosody-group marker, then every
/// phrase with its separators.
pub open spec fn spec_render_pronunciation(aps: Seq<AccentPhrase>) -> Seq<char> {
    "$2_2"@ + spec_phrases_upto(aps, aps.len() as int)
}

proof fn lemma_string_views_insert(s: Seq<String>, i: int, v: String)
    requires
        0 <= i <= s.len(),
    ensures
        string_views(s.insert(i, v)) =~= string_views(s).insert(i, v@),
{
}

/// The marked mora-text list of one phrase, built as the rule table says.
fn render_phrase_marks(moras: &Vec<Mora>, accent: usize) -> (r: Vec<String>)
    requires
        accent <= moras@.len(),
    ensures
        string_views(r@) == spec_marked(mora_text_views(moras@), accent as int),
{
    let ghost texts = mora_text_views(moras@);
    let mut local: Vec<String> = Vec::new();
    proof {
        assert(string_views(local@) =~~= texts.subrange(0, 0));
    }
    let mut i: usize = 0;
    while i < moras.len()
        invariant
            i <= moras@.len(),
            texts == mora_text_views(moras@),
            string_views(local@) == texts.subrange(0, i as int),
        decreases moras@.len() - i,
    {
        let ghost prev = local@;
        local.push(moras[i].text.clone());
        proof {
            assert(string_views(prev) == texts.subrange(0, i as int));
            assert(string_views(prev).len() == prev.len());
            assert(prev.len() == i);
            assert(local@.len() == i + 1);
            assert(local@[i as int]@ == moras@[i as int].text@);
            assert forall|k: int| 0 <= k <= i implies string_views(local@)[k] == texts.subrange(
                0,
                i as int + 1,
            )[k] by {
                if k < i {
                    assert(local@[k] == prev[k]);
                    assert(string_views(prev)[k] == texts.subrange(0, i as int)[k]);
                } else {
                    assert(string_views(local@)[k] == local@[k]@);
                    assert(texts[k] == moras@[k].text@);
                }
            }
            assert(string_views(local@) =~= texts.subrange(0, i as int + 1));
        }
        i = i + 1;
    }
    proof {
        assert(texts.subrange(0, texts.len() as int) =~= texts);
    }
    if moras.len() > 1 {
        if accent == 1 {
            let ghost before = local@;
            local.insert(1, String::from_str("!"));
            proof {
                lemma_string_views_insert(before, 1, local@[1]);
            }
            let ghost mid = local@;
            local.insert(0, String::from_str("^"));
            proof {
                lemma_string_views_insert(mid, 0, local@[0]);
            }
        } else {
            if accent != moras.len() {
                let ghost before = local@;
                local.insert(accent, String::from_str("!"));
                proof {
                    lemma_string_views_insert(before, accent as int, local@[accent as int]);
                }
            }
            let ghost mid = local@;
            local.insert(1, String::from_str("^"));
            proof {
                lemma_string_views_insert(mid, 1, local@[1]);
            }
        }
    }
    proof {
        assert(string_views(local@) =~~= spec_marked(texts, accent as int));
    }
    local
}

/// Concatenates a list of texts.
fn join_strings(parts: &Vec<String>) -> (r: String)
    ensures
        r@ == string_views(parts@).flatten(),
{
    let ghost views = string_views(parts@);
    let mut out = String::new();
    proof {
        assert(views.subrange(0, 0).flatten() =~= Seq::<char>::empty());
    }
    let mut i: usize = 0;
    while i < parts.len()
        invariant
            i <= parts@.len(),
            views == string_views(parts@),
            out@ == views.subrange(0, i as int).flatten(),
        decreases parts@.len() - i,
    {
        out.append(parts[i].as_str());
        proof {
            let pre = views.subrange(0, i as int);
            pre.lemma_flatten_push(views[i as int]);
            assert(views.subrange(0, i as int + 1) =~= pre.push(views[i as int]));
            assert(out@ == views.subrange(0, i as int + 1).flatten());
        }
        i = i + 1;
    }
    proof {
        assert(views.subrange(0, views.len() as int) =~= views);
    }
    out
}

/// Renders one accent phrase into its marked, concatenated text.
pub fn render_phrase(ap: &AccentPhrase) -> (r: String)
    requires
        ap.accent <= ap.moras@.len(),
    ensures
        r@ == spec_render_phrase(*ap),
{
    let marks = render_phrase_marks(&ap.moras, ap.accent);
    join_strings(&marks)
}

/// Renders a whole accent-phrase list into the host's prosody notation,
/// with the leading group marker and the pause separators.
pub fn render_pronunciation(aps: &Vec<AccentPhrase>) -> (r: String)
    requires
        forall|k: int| 0 <= k < aps@.len() ==> (#[trigger] aps@[k]).accent <= aps@[k].moras@.len(),
    ensures
        r@ == spec_render_pronunciation(aps@),
{
    let mut out = String::from_str("$2_2");
    proof {
        assert(out@ =~= "$2_2"@ + spec_phrases_upto(aps@, 0));
    }
    let mut i: usize = 0;
    while i < aps.len()
        invariant
            i <= aps@.len(),
            forall|k: int|
                0 <= k < aps@.len() ==> (#[trigger] aps@[k]).accent <= aps@[k].moras@.len(),
            out@ == "$2_2"@ + spec_phrases_upto(aps@, i as int),
        decreases aps@.len() - i,
    {
        let ghost mid = out@;
        let rendered = render_phrase(&aps[i]);
        out.append(rendered.as_str());
        if i != aps.len() - 1 {
            match &aps[i].pause_mora {
                Some(_) => out.append("$2_2"),
                None => out.append("|0"),
            }
            proof {
                assert(out@ =~= mid + spec_render_phrase(aps@[i as int]) + spec_separator(
                    aps@[i as int],
                ));
            }
        } else {
            proof {
                assert(out@ =~= mid + spec_render_phrase(aps@[i as int]) + Seq::<char>::empty());
            }
        }
        proof {
            assert(spec_phrases_upto(aps@, i as int + 1) == spec_phrases_upto(aps@, i as int)
                + spec_render_phrase(aps@[i as int]) + (if i as int != aps@.len() - 1 {
                spec_separator(aps@[i as int])
            } else {
                Seq::<char>::empty()
            }));
            assert(out@ =~= "$2_2"@ + spec_phrases_upto(aps@, i as int + 1));
        }
        i = i + 1;
    }
    out
}

/// Placement of the downstep marker, by accent position. With no mora
/// text itself equal to a marker: a phrase accented on its last mora has
/// no downstep marker at all; a phrase accented on its first mora has
/// the downstep right after that mora (position two, behind the rise
/// marker); an interior accent puts exactly one downstep marker behind
/// the accented mora.
pub proof fn lemma_downstep_marker_placement(ts: Seq<Seq<char>>, accent: int)
    requires
        ts.len() > 1,
        1 <= accent <= ts.len(),
        forall|k: int| 0 <= k < ts.len() ==> ts[k] != "!"@ && ts[k] != "^"@,
    ensures
        accent == ts.len() ==> spec_marked(ts, accent).len() == ts.len() + 1 && forall|j: int|
            0 <= j < spec_marked(ts, accent).len() ==> spec_marked(ts, accent)[j] != "!"@,
        accent < ts.len() ==> spec_marked(ts, accent).len() == ts.len() + 2 && spec_marked(
            ts,
            accent,
        )[accent + 1] == "!"@ && forall|j: int|
            0 <= j < spec_marked(ts, accent).len() && j != accent + 1 ==> spec_marked(
                ts,
                accent,
            )[j] != "!"@,
{
    reveal_strlit("!");
    reveal_strlit("^");
    assert("!"@[0] == '!' && "^"@[0] == '^');
    assert("!"@ != "^"@);
    let m = spec_marked(ts, accent);
    if accent == ts.len() {
        assert(m == ts.insert(1, "^"@));
        assert forall|j: int| 0 <= j < m.len() implies m[j] != "!"@ by {
            if j == 1 {
                assert(m[j] == "^"@);
            } else if j < 1 {
                assert(m[j] == ts[j]);
            } else {
                assert(m[j] == ts[j - 1]);
            }
        }
    } else if accent == 1 {
        let w = ts.insert(1, "!"@);
        assert(m == w.insert(0, "^"@));
        assert(m[2] == w[1]);
        assert(m[accent + 1] == "!"@);
        assert forall|j: int| 0 <= j < m.len() && j != accent + 1 implies m[j] != "!"@ by {
            if j == 0 {
                assert(m[j] == "^"@);
            } else {
                assert(m[j] == w[j - 1]);
                if j - 1 < 1 {
                    assert(w[j - 1] == ts[j - 1]);
                } else if j - 1 == 1 {
                } else {
                    assert(w[j - 1] == ts[j - 2]);
                }
            }
        }
    } else {
        let w = ts.insert(accent, "!"@);
        assert(m == w.insert(1, "^"@));
        assert(m[accent + 1] == w[accent]);
        assert(m[accent + 1] == "!"@);
        assert forall|j: int| 0 <= j < m.len() && j != accent + 1 implies m[j] != "!"@ by {
            if j == 1 {
                assert(m[j] == "^"@);
            } else if j < 1 {
                assert(m[j] == w[j]);
                assert(w[j] == ts[j]);
            } else {
                assert(m[j] == w[j - 1]);
                if j - 1 < accent {
                    assert(w[j - 1] == ts[j - 1]);
                } else if j - 1 == accent {
                } else {
                    assert(w[j - 1] == ts[j - 2]);
                }
            }
        }
    }
}

} // verus!
