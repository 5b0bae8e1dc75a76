//! Rewriting the host's persistent settings text so output routing is
//! deterministic, and the backup/restore protocol around it.
//!
//! The settings file is semi-structured markup; each patched key is the
//! inner text between a named open/close tag pair, replaced exactly once
//! by a dedicated scanner. A missing tag is a fatal parse error. Before
//! the first write the original file is backed up — unless a backup
//! already exists, the trace of an interrupted prior run, which must
//! never be overwritten. Restoring copies the backup back and deletes it.
//!
//! This module works on file contents as byte vectors; reading and
//! writing the real files is the process shell's task.

use vstd::prelude::*;
use vstd::utf8::is_ascii_chars;
use crate::error::Error;
use crate::text::{ascii_seq, ascii_bytes, spec_find, match_at, find_sub, vec_range, vec_extend};

verus! {

/// Markup escaping of one byte: ampersand, less-than and greater-than
/// become entities, every other byte stands unchanged.
pub open spec fn escape_byte(b: u8) -> Seq<u8> {
    if b == 38 {
        // '&'
        ascii_seq("&amp;"@)
    } else if b == 60 {
        // '<'
        ascii_seq("&lt;"@)
    } else if b == 62 {
        // '>'
        ascii_seq("&gt;"@)
    } else {
        seq![b]
    }
}

/// Markup escaping of a byte text.
pub open spec fn escape_bytes(s: Seq<u8>) -> Seq<u8>
    decreases s.len(),
{
    if s.len() == 0 {
        Seq::empty()
    } else {
        escape_byte(s[0]) + escape_bytes(s.drop_first())
    }
}

proof fn lemma_escape_snoc(s: Seq<u8>, b: u8)
    ensures
        escape_bytes(s.push(b)) == escape_bytes(s) + escape_byte(b),
    decreases s.len(),
{
    if s.len() == 0 {
        assert(s.push(b)[0] == b);
        assert(s.push(b).drop_first() =~= Seq::<u8>::empty());
        assert(escape_bytes(Seq::<u8>::empty()) =~= Seq::<u8>::empty());
        assert(escape_bytes(s.push(b)) =~= escape_byte(b) + escape_bytes(s.push(b).drop_first()));
        assert(escape_bytes(s.push(b)) =~= escape_byte(b));
        assert(escape_bytes(s) + escape_byte(b) =~= escape_byte(b));
    } else {
        assert(s.push(b).drop_first() =~= s.drop_first().push(b));
        lemma_escape_snoc(s.drop_first(), b);
        assert(escape_bytes(s.push(b)) =~= escape_bytes(s) + escape_byte(b));
    }
}

/// Escapes markup-significant bytes of a text.
pub fn escape_text(s: &Vec<u8>) -> (r: Vec<u8>)
    ensures
        r@ == escape_bytes(s@),
{
    proof {
        reveal_strlit("&amp;");
        reveal_strlit("&lt;");
        reveal_strlit("&gt;");
        assert(is_ascii_chars("&amp;"@));
        assert(is_ascii_chars("&lt;"@));
        assert(is_ascii_chars("&gt;"@));
    }
    let amp = ascii_bytes("&amp;");
    let lt = ascii_bytes("&lt;");
    let gt = ascii_bytes("&gt;");
    let mut out: Vec<u8> = Vec::new();
    let mut i: usize = 0;
    while i < s.len()
        invariant
            i <= s@.len(),
            amp@ == ascii_seq("&amp;"@),
            lt@ == ascii_seq("&lt;"@),
            gt@ == ascii_seq("&gt;"@),
            out@ == escape_bytes(s@.subrange(0, i as int)),
        decreases s@.len() - i,
    {
        let b = s[i];
        if b == 38 {
            vec_extend(&mut out, &amp);
        } else if b == 60 {
            vec_extend(&mut out, &lt);
        } else if b == 62 {
            vec_extend(&mut out, &gt);
        } else {
            out.push(b);
            proof {
                assert(out@ =~= escape_bytes(s@.subrange(0, i as int)) + escape_byte(b));
            }
        }
        proof {
            assert(s@.subrange(0, i as int + 1) =~= s@.subrange(0, i as int).push(s@[i as int]));
            lemma_escape_snoc(s@.subrange(0, i as int), s@[i as int]);
        }
        i = i + 1;
    }
    proof {
        assert(s@.subrange(0, s@.len() as int) =~= s@);
    }
    out
}

/// Positions and bounds of a found pattern, read off the search result.
proof fn lemma_find_props(h: Seq<u8>, n: Seq<u8>, from: int)
    requires
        0 <= from,
    ensures
        spec_find(h, n, from) matches Some(i) ==> from <= i && i + n.len() <= h.len(),
    decreases h.len() - from,
{
    if from + n.len() <= h.len() {
        if n.len() == 0 || match_at(h, n, from) {
        } else {
            lemma_find_props(h, n, from + 1);
        }
    }
}

/// The settings text with the inner text of one tag pair replaced: the
/// text between the first open tag and the first close tag after it
/// becomes `value`. `None` when either tag is missing.
pub open spec fn spec_replace_tag(
    s: Seq<u8>,
    open_tag: Seq<u8>,
    close_tag: Seq<u8>,
    value: Seq<u8>,
) -> Option<Seq<u8>> {
    match spec_find(s, open_tag, 0) {
        Some(o) => {
            let cs = o + open_tag.len();
            match spec_find(s, close_tag, cs) {
                Some(c) => Some(s.subrange(0, cs) + value + s.subrange(c, s.len() as int)),
                None => None,
            }
        },
        None => None,
    }
}

/// Replaces the inner text of one tag pair, or reports the tags missing.
pub fn replace_tag(
    s: &Vec<u8>,
    open_tag: &Vec<u8>,
    close_tag: &Vec<u8>,
    value: &Vec<u8>,
) -> (r: Option<Vec<u8>>)
    ensures
        match r {
            Some(v) => spec_replace_tag(s@, open_tag@, close_tag@, value@) == Some(v@),
            None => spec_replace_tag(s@, open_tag@, close_tag@, value@) is None,
        },
{
    let o = match find_sub(s, open_tag, 0) {
        Some(o) => o,
        None => {
            return None;
        },
    };
    proof {
        lemma_find_props(s@, open_tag@, 0);
    }
    let total = s.len();
    let content_start = o + open_tag.len();
    let c = match find_sub(s, close_tag, content_start) {
        Some(c) => c,
        None => {
            return None;
        },
    };
    proof {
        lemma_find_props(s@, close_tag@, content_start as int);
    }
    let mut out = vec_range(s, 0, content_start);
    vec_extend(&mut out, value);
    let tail = vec_range(s, c, s.len());
    vec_extend(&mut out, &tail);
    Some(out)
}

/// The replacement block wired into the phrase-dictionary key: a file
/// reference holding the escaped dictionary path, with the dictionary
/// enabled.
pub open spec fn spec_phrase_dic_value(path: Seq<u8>) -> Seq<u8> {
    ascii_seq(
        "<FilePath>\n  <IsSpecialFolderEnabled>false</IsSpecialFolderEnabled>\n  <SpecialFolder>Personal</SpecialFolder>\n  <PartialPath>"@,
    ) + escape_bytes(path) + ascii_seq(
        "</PartialPath>\n</FilePath>\n<IsEnabled>true</IsEnabled>\n"@,
    )
}

/// Builds the phrase-dictionary replacement block for a dictionary path.
pub fn phrase_dic_value(path: &Vec<u8>) -> (r: Vec<u8>)
    ensures
        r@ == spec_phrase_dic_value(path@),
{
    proof {
        reveal_strlit(
            "<FilePath>\n  <IsSpecialFolderEnabled>false</IsSpecialFolderEnabled>\n  <SpecialFolder>Personal</SpecialFolder>\n  <PartialPath>",
        );
        reveal_strlit("</PartialPath>\n</FilePath>\n<IsEnabled>true</IsEnabled>\n");
        assert(is_ascii_chars(
            "<FilePath>\n  <IsSpecialFolderEnabled>false</IsSpecialFolderEnabled>\n  <SpecialFolder>Personal</SpecialFolder>\n  <PartialPath>"@,
        ));
        assert(is_ascii_chars("</PartialPath>\n</FilePath>\n<IsEnabled>true</IsEnabled>\n"@));
    }
    let mut out = ascii_bytes(
        "<FilePath>\n  <IsSpecialFolderEnabled>false</IsSpecialFolderEnabled>\n  <SpecialFolder>Personal</SpecialFolder>\n  <PartialPath>",
    );
    let escaped = escape_text(path);
    vec_extend(&mut out, &escaped);
    let suffix = ascii_bytes("</PartialPath>\n</FilePath>\n<IsEnabled>true</IsEnabled>\n");
    vec_extend(&mut out, &suffix);
    out
}

/// One settings-patch step over an already-optional text.
pub open spec fn patch_step(
    s: Option<Seq<u8>>,
    open_tag: Seq<char>,
    close_tag: Seq<char>,
    value: Seq<u8>,
) -> Option<Seq<u8>> {
    match s {
        Some(x) => spec_replace_tag(x, ascii_seq(open_tag), ascii_seq(close_tag), value),
        None => None,
    }
}

/// The fully patched settings text: the ordered, independent key
/// replacements that make the host's output routing deterministic.
/// `None` as soon as any tag pair is missing.
pub open spec fn spec_patch_settings(s: Seq<u8>, dict_path: Seq<u8>) -> Option<Seq<u8>> {
    let s1 = patch_step(Some(s), "<PhraseDic>"@, "</PhraseDic>"@, spec_phrase_dic_value(dict_path));
    let s2 = patch_step(s1, "<BeginPause>"@, "</BeginPause>"@, ascii_seq("0"@));
    let s3 = patch_step(s2, "<TermPause>"@, "</TermPause>"@, ascii_seq("0"@));
    let s4 = patch_step(s3, "<BitDepth>"@, "</BitDepth>"@, ascii_seq("0"@));
    let s5 = patch_step(s4, "<SamplesPerSec>"@, "</SamplesPerSec>"@, ascii_seq("48000"@));
    let s6 = patch_step(s5, "<PcmAudioType>"@, "</PcmAudioType>"@, ascii_seq("Linear"@));
    let s7 = patch_step(
        s6,
        "<FilePathSelectionMode>"@,
        "</FilePathSelectionMode>"@,
        ascii_seq("FileSaveDialog"@),
    );
    let s8 = patch_step(s7, "<IsTextFileCreated>"@, "</IsTextFileCreated>"@, ascii_seq("false"@));
    patch_step(s8, "<SplitCondition>"@, "</SplitCondition>"@, ascii_seq("None"@))
}

/// Applies one exec patch step, reporting the failing key on a miss.
fn apply_step(s: &Vec<u8>, open_tag: &str, close_tag: &str, value: &Vec<u8>) -> (r: Result<
    Vec<u8>,
    Error,
>)
    requires
        open_tag.is_ascii(),
        close_tag.is_ascii(),
    ensures
        match r {
            Ok(v) => spec_replace_tag(s@, ascii_seq(open_tag@), ascii_seq(close_tag@), value@)
                == Some(v@),
            Err(e) => spec_replace_tag(s@, ascii_seq(open_tag@), ascii_seq(close_tag@), value@)
                is None && e is SettingsParseFailed,
        },
{
    let ot = ascii_bytes(open_tag);
    let ct = ascii_bytes(close_tag);
    match replace_tag(s, &ot, &ct, value) {
        Some(v) => Ok(v),
        None => Err(Error::SettingsParseFailed(String::from_str(open_tag))),
    }
}

/// Patches every routed key of the settings text, in order; the first
/// missing tag pair aborts the whole patch with a parse error.
pub fn patch_settings(settings: &Vec<u8>, dict_path: &Vec<u8>) -> (r: Result<Vec<u8>, Error>)
    ensures
        match r {
            Ok(v) => spec_patch_settings(settings@, dict_path@) == Some(v@),
            Err(e) => spec_patch_settings(settings@, dict_path@) is None
                && e is SettingsParseFailed,
        },
{
    proof {
        reveal_strlit("<PhraseDic>"); reveal_strlit("</PhraseDic>");
        reveal_strlit("<BeginPause>"); reveal_strlit("</BeginPause>");
        reveal_strlit("<TermPause>"); reveal_strlit("</TermPause>");
        reveal_strlit("<BitDepth>"); reveal_strlit("</BitDepth>");
        reveal_strlit("<SamplesPerSec>"); reveal_strlit("</SamplesPerSec>");
        reveal_strlit("<PcmAudioType>"); reveal_strlit("</PcmAudioType>");
        reveal_strlit("<FilePathSelectionMode>"); reveal_strlit("</FilePathSelectionMode>");
        reveal_strlit("<IsTextFileCreated>"); reveal_strlit("</IsTextFileCreated>");
        reveal_strlit("<SplitCondition>"); reveal_strlit("</SplitCondition>");
        reveal_strlit("0"); reveal_strlit("48000"); reveal_strlit("Linear");
        reveal_strlit("FileSaveDialog"); reveal_strlit("false"); reveal_strlit("None");
        assert(is_ascii_chars("<PhraseDic>"@)); assert(is_ascii_chars("</PhraseDic>"@));
        assert(is_ascii_chars("<BeginPause>"@)); assert(is_ascii_chars("</BeginPause>"@));
        assert(is_ascii_chars("<TermPause>"@)); assert(is_ascii_chars("</TermPause>"@));
        assert(is_ascii_chars("<BitDepth>"@)); assert(is_ascii_chars("</BitDepth>"@));
        assert(is_ascii_chars("<SamplesPerSec>"@)); assert(is_ascii_chars("</SamplesPerSec>"@));
        assert(is_ascii_chars("<PcmAudioType>"@)); assert(is_ascii_chars("</PcmAudioType>"@));
        assert(is_ascii_chars("<FilePathSelectionMode>"@));
        assert(is_ascii_chars("</FilePathSelectionMode>"@));
        assert(is_ascii_chars("<IsTextFileCreated>"@));
        assert(is_ascii_chars("</IsTextFileCreated>"@));
        assert(is_ascii_chars("<SplitCondition>"@)); assert(is_ascii_chars("</SplitCondition>"@));
        assert(is_ascii_chars("0"@)); assert(is_ascii_chars("48000"@));
        assert(is_ascii_chars("Linear"@)); assert(is_ascii_chars("FileSaveDialog"@));
        assert(is_ascii_chars("false"@)); assert(is_ascii_chars("None"@));
    }
    let dic_value = phrase_dic_value(dict_path);
    let zero = ascii_bytes("0");
    let s1 = apply_step(settings, "<PhraseDic>", "</PhraseDic>", &dic_value)?;
    let s2 = apply_step(&s1, "<BeginPause>", "</BeginPause>", &zero)?;
    let s3 = apply_step(&s2, "<TermPause>", "</TermPause>", &zero)?;
    let s4 = apply_step(&s3, "<BitDepth>", "</BitDepth>", &zero)?;
    let rate = ascii_bytes("48000");
    let s5 = apply_step(&s4, "<SamplesPerSec>", "</SamplesPerSec>", &rate)?;
    let pcm = ascii_bytes("Linear");
    let s6 = apply_step(&s5, "<PcmAudioType>", "</PcmAudioType>", &pcm)?;
    let mode = ascii_bytes("FileSaveDialog");
    let s7 = apply_step(&s6, "<FilePathSelectionMode>", "</FilePathSelectionMode>", &mode)?;
    let no = ascii_bytes("false");
    let s8 = apply_step(&s7, "<IsTextFileCreated>", "</IsTextFileCreated>", &no)?;
    let split = ascii_bytes("None");
    let s9 = apply_step(&s8, "<SplitCondition>", "</SplitCondition>", &split)?;
    Ok(s9)
}

/// A model of the two settings paths on disk: the live file's contents
/// and the backup file's contents, if a backup exists.
#[derive(Debug, Clone)]
pub struct SettingsFiles {
    pub live: Vec<u8>,
    pub backup: Option<Vec<u8>>,
}

/// The modify transition: the live text is patched, and the original
/// live text becomes the backup — unless a backup already exists, in
/// which case it is preserved untouched.
pub open spec fn spec_modify(
    live: Seq<u8>,
    backup: Option<Seq<u8>>,
    dict_path: Seq<u8>,
) -> Option<(Seq<u8>, Option<Seq<u8>>)> {
    match spec_patch_settings(live, dict_path) {
        Some(patched) => Some(
            (patched, if backup is Some { backup } else { Some(live) }),
        ),
        None => None,
    }
}

/// The restore transition: the backup becomes the live text and is
/// deleted; with no backup present the restore fails and changes
/// nothing.
pub open spec fn spec_restore(live: Seq<u8>, backup: Option<Seq<u8>>) -> Option<
    (Seq<u8>, Option<Seq<u8>>),
> {
    match backup {
        Some(b) => Some((b, None)),
        None => None,
    }
}

/// Patches the live settings and installs the backup, preserving any
/// pre-existing backup file.
pub fn modify_files(files: SettingsFiles, dict_path: &Vec<u8>) -> (r: Result<SettingsFiles, Error>)
    ensures
        match r {
            Ok(nf) => {
                &&& spec_modify(files.live@, view_backup(files.backup), dict_path@) matches Some(t)
                &&& t.0 == nf.live@
                &&& t.1 == view_backup(nf.backup)
            },
            Err(e) => spec_modify(files.live@, view_backup(files.backup), dict_path@) is None
                && e is SettingsParseFailed,
        },
{
    let patched = patch_settings(&files.live, dict_path)?;
    let backup = match files.backup {
        Some(b) => Some(b),
        None => Some(files.live),
    };
    Ok(SettingsFiles { live: patched, backup })
}

/// The contents view of an optional backup file.
pub open spec fn view_backup(b: Option<Vec<u8>>) -> Option<Seq<u8>> {
    match b {
        Some(v) => Some(v@),
        None => None,
    }
}

/// Restores the live settings from the backup and deletes the backup;
/// `None` when no backup exists, leaving the files as they are.
pub fn restore_files(files: SettingsFiles) -> (r: Option<SettingsFiles>)
    ensures
        match r {
            Some(nf) => spec_restore(files.live@, view_backup(files.backup))
                == Some((nf.live@, view_backup(nf.backup))),
            None => spec_restore(files.live@, view_backup(files.backup)) is None,
        },
{
    match files.backup {
        Some(b) => Some(SettingsFiles { live: b, backup: None }),
        None => None,
    }
}

/// Crash recovery never loses the original settings. With a backup
/// already on disk — the trace of an interrupted run — a renewed patch
/// preserves that backup rather than overwriting it with already-patched
/// text; a successful restore installs the backup as the live text and
/// removes it; and a second restore after that fails cleanly instead of
/// touching the restored live text.
pub proof fn lemma_settings_crash_recovery(
    live: Seq<u8>,
    prior_backup: Seq<u8>,
    dict_path: Seq<u8>,
)
    ensures
        spec_modify(live, Some(prior_backup), dict_path) matches Some(t) ==> t.1 == Some(
            prior_backup,
        ),
        spec_restore(live, Some(prior_backup)) == Some((prior_backup, None::<Seq<u8>>)),
        spec_restore(prior_backup, None::<Seq<u8>>) is None,
{
}

/// The settings patcher: path conventions and the patch itself. The
/// profile directory that holds the settings is located by the process
/// shell through the OS profile environment.
#[derive(Debug)]
pub struct SettingsModifier {}

impl SettingsModifier {
    pub fn new() -> SettingsModifier {
        SettingsModifier {}
    }

    /// The live settings file inside the host's settings directory.
    pub fn aivoice_setting_path(setting_dir: &str) -> (r: String)
        ensures
            r@ == setting_dir@ + "\\Standard.settings"@,
    {
        String::from_str(setting_dir).concat("\\Standard.settings")
    }

    /// The backup file: the live file's path with the backup suffix.
    pub fn aivoice_backup_setting_path(setting_dir: &str) -> (r: String)
        ensures
            r@ == setting_dir@ + "\\Standard.settings.bak"@,
    {
        String::from_str(setting_dir).concat("\\Standard.settings.bak")
    }
}

} // verus!
