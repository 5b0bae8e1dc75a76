use aivoice_vox::prosody::{AccentPhrase, Mora, render_phrase, render_pronunciation};

fn mora(text: &str) -> Mora {
    Mora { text: text.to_string(), consonant: None, vowel: "a".to_string() }
}

fn phrase(texts: &[&str], accent: usize, pause: bool) -> AccentPhrase {
    AccentPhrase {
        moras: texts.iter().map(|t| mora(t)).collect(),
        accent,
        pause_mora: if pause { Some(mora("、")) } else { None },
        is_interrogative: false,
    }
}

#[test]
fn accent_on_first_mora_marks_the_peak() {
    let ap = phrase(&["シ", "タ"], 1, false);
    assert_eq!(render_phrase(&ap), "^シ!タ");
}

#[test]
fn accent_on_last_mora_omits_downstep() {
    let ap = phrase(&["シ", "タ"], 2, false);
    assert_eq!(render_phrase(&ap), "シ^タ");
}

#[test]
fn interior_accent_places_one_downstep() {
    let ap = phrase(&["ア", "イ", "ウ"], 2, false);
    let rendered = render_phrase(&ap);
    assert_eq!(rendered, "ア^イ!ウ");
    assert_eq!(rendered.matches('!').count(), 1);
}

#[test]
fn single_mora_phrase_is_unmarked() {
    let ap = phrase(&["ア"], 1, false);
    assert_eq!(render_phrase(&ap), "ア");
}

#[test]
fn zero_accent_keeps_the_legacy_layout() {
    let ap = phrase(&["ア", "イ"], 0, false);
    assert_eq!(render_phrase(&ap), "!^アイ");
}

#[test]
fn pronunciation_has_leading_group_marker() {
    let aps = vec![phrase(&["シ", "タ"], 1, false)];
    assert_eq!(render_pronunciation(&aps), "$2_2^シ!タ");
}

#[test]
fn phrases_with_pause_join_on_full_pause_marker() {
    let aps = vec![phrase(&["シ", "タ"], 1, true), phrase(&["ア"], 1, false)];
    assert_eq!(render_pronunciation(&aps), "$2_2^シ!タ$2_2ア");
}

#[test]
fn phrases_without_pause_join_on_light_pause_marker() {
    let aps = vec![phrase(&["シ", "タ"], 1, false), phrase(&["ア"], 1, false)];
    assert_eq!(render_pronunciation(&aps), "$2_2^シ!タ|0ア");
}

#[test]
fn final_phrase_gets_no_separator() {
    let aps = vec![phrase(&["ア"], 1, true)];
    assert_eq!(render_pronunciation(&aps), "$2_2ア");
}

#[test]
fn empty_phrase_list_renders_group_marker_alone() {
    let aps: Vec<AccentPhrase> = vec![];
    assert_eq!(render_pronunciation(&aps), "$2_2");
}
