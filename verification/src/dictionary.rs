//! The phrase-dictionary side channel: the host's proprietary dictionary
//! file format, rendered and parsed.
//!
//! A dictionary holds at most one phrase per request: an ASCII header
//! line carrying component metadata and the record count, then — when a
//! phrase is present — a record pairing the phrase's UUID (the lookup
//! key the host is later told to "say") with two duplicate copies of the
//! phonetic notation. The header stays ASCII; the record is transcoded
//! to the host's legacy single-byte encoding at the byte boundary.
//! Writing with no phrase clears the dictionary to a valid empty state.

use vstd::prelude::*;
use vstd::utf8::encode_utf8;
use crate::aivoice::Phrase;
use crate::text::str_eq;
use crate::uuid_text::{spec_hyphenated, lemma_hyphenated_no_newline};

verus! {

/// The Shift_JIS encoding of a text: a function of the characters alone,
/// fixed by the encoding tables.
pub uninterp spec fn shift_jis_of(s: Seq<char>) -> Seq<u8>;

/// Relies on `encoding_rs::SHIFT_JIS.encode`: the encoded bytes depend
/// on the text alone, and an empty text encodes to no bytes.
#[verifier::external_body]
pub fn encode_shift_jis(s: &String) -> (r: Vec<u8>)
    ensures
        r@ == shift_jis_of(s@),
        s@.len() == 0 ==> r@.len() == 0,
{
    let (bytes, _, _) = encoding_rs::SHIFT_JIS.encode(s.as_str());
    bytes.into_owned()
}

/// The dictionary header line: fixed component metadata, the formatted
/// write timestamp, and the record count — one when a phrase follows,
/// zero for the cleared dictionary.
pub open spec fn spec_header(timestamp: Seq<char>, has_phrase: bool) -> Seq<char> {
    "# ComponentName=\"AITalk\" ComponentVersion=\"6.0.0.0\" UpdateDateTime=\""@ + timestamp
        + "\" Type=\"Phrase\" Version=\"3.3\" Language=\"Japanese\" Count=\""@
        + (if has_phrase { "1"@ } else { "0"@ }) + "\"\n"@
}

/// The dictionary record of one phrase: a fixed first field, the UUID
/// line, then surface and reading — two duplicate copies of the phonetic
/// notation, each behind the prosody-group marker.
pub open spec fn spec_record(uuid_text: Seq<char>, pronunciation: Seq<char>) -> Seq<char> {
    "num:0\n"@ + uuid_text + "\n"@ + "$2_2"@ + pronunciation + "$2_2"@ + pronunciation + "\n"@
}

/// Renders the header line.
pub fn render_dictionary_header(timestamp: &str, has_phrase: bool) -> (r: String)
    ensures
        r@ == spec_header(timestamp@, has_phrase),
{
    let mut out = String::from_str(
        "# ComponentName=\"AITalk\" ComponentVersion=\"6.0.0.0\" UpdateDateTime=\"",
    );
    out.append(timestamp);
    out.append("\" Type=\"Phrase\" Version=\"3.3\" Language=\"Japanese\" Count=\"");
    if has_phrase {
        out.append("1");
    } else {
        out.append("0");
    }
    out.append("\"\n");
    out
}

/// Renders the record of a phrase.
pub fn render_dictionary_record(phrase: &Phrase) -> (r: String)
    ensures
        r@ == spec_record(spec_hyphenated(phrase.uuid), phrase.pronunciation@),
{
    let mut out = String::from_str("num:0\n");
    let uuid_text = phrase.uuid_text();
    out.append(uuid_text.as_str());
    out.append("\n");
    out.append("$2_2");
    out.append(phrase.pronunciation.as_str());
    out.append("$2_2");
    out.append(phrase.pronunciation.as_str());
    out.append("\n");
    out
}

/// The full dictionary file: the UTF-8 bytes of the ASCII header, then,
/// when a phrase is present, the legacy-encoded record. No phrase gives
/// the valid empty dictionary: the header alone, count zero, no record.
pub fn render_dictionary_bytes(phrase: Option<&Phrase>, timestamp: &str) -> (r: Vec<u8>)
    ensures
        match phrase {
            None => r@ == encode_utf8(spec_header(timestamp@, false)),
            Some(p) => r@ == encode_utf8(spec_header(timestamp@, true)) + shift_jis_of(
                spec_record(spec_hyphenated(p.uuid), p.pronunciation@),
            ),
        },
{
    match phrase {
        None => {
            let header = render_dictionary_header(timestamp, false);
            header.as_str().as_bytes_vec()
        },
        Some(p) => {
            let header = render_dictionary_header(timestamp, true);
            let mut out = header.as_str().as_bytes_vec();
            let record = render_dictionary_record(p);
            let mut encoded = encode_shift_jis(&record);
            let ghost out0 = out@;
            let mut k: usize = 0;
            while k < encoded.len()
                invariant
                    k <= encoded@.len(),
                    out@ =~= out0 + encoded@.subrange(0, k as int),
                decreases encoded@.len() - k,
            {
                out.push(encoded[k]);
                proof {
                    assert(out@ =~= out0 + encoded@.subrange(0, k as int + 1));
                }
                k = k + 1;
            }
            proof {
                assert(out@ =~= out0 + encoded@);
            }
            out
        },
    }
}

/// The first line-break position at or after `from`.
pub open spec fn first_newline(s: Seq<char>, from: int) -> Option<int>
    recommends
        0 <= from,
    decreases s.len() - from,
{
    if from < 0 || from >= s.len() {
        None
    } else if s[from] == '\n' {
        Some(from)
    } else {
        first_newline(s, from + 1)
    }
}

proof fn lemma_newline_skip(s: Seq<char>, from: int, upto: int)
    requires
        0 <= from <= upto,
        forall|k: int| from <= k < upto ==> s[k] != '\n',
    ensures
        first_newline(s, from) == first_newline(s, upto),
    decreases upto - from,
{
    if from < upto {
        lemma_newline_skip(s, from + 1, upto);
    }
}

/// What a record parses back to: the UUID line and the single phonetic
/// notation both duplicate fields carry. The two copies split evenly by
/// length; a record whose copies disagree, or whose framing is off, does
/// not parse.
pub open spec fn spec_parse_record(s: Seq<char>) -> Option<(Seq<char>, Seq<char>)> {
    if s.len() < 6 || s.subrange(0, 6) != "num:0\n"@ {
        None
    } else {
        match first_newline(s, 6) {
            None => None,
            Some(nl) => {
                if s.len() - nl < 2 || s[s.len() - 1] != '\n' {
                    None
                } else {
                    let bs = nl + 1;
                    let be = s.len() - 1;
                    let blen = be - bs;
                    if blen < 8 || blen % 2 != 0 || s.subrange(bs, bs + 4) != "$2_2"@ {
                        None
                    } else {
                        let plen = (blen - 8) / 2;
                        let p1 = s.subrange(bs + 4, bs + 4 + plen);
                        if s.subrange(bs + 4 + plen, bs + 8 + plen) != "$2_2"@ || s.subrange(
                            bs + 8 + plen,
                            be,
                        ) != p1 {
                            None
                        } else {
                            Some((s.subrange(6, nl), p1))
                        }
                    }
                }
            },
        }
    }
}

/// Bounds of a found line break.
proof fn lemma_newline_props(s: Seq<char>, from: int)
    requires
        0 <= from,
    ensures
        first_newline(s, from) matches Some(i) ==> from <= i < s.len() && s[i] == '\n',
    decreases s.len() - from,
{
    if from < s.len() && s[from] != '\n' {
        lemma_newline_props(s, from + 1);
    }
}

/// Finds the first line break at or after `from`.
fn find_newline(s: &str, from: usize) -> (r: Option<usize>)
    ensures
        match r {
            Some(i) => first_newline(s@, from as int) == Some(i as int),
            None => first_newline(s@, from as int) is None,
        },
{
    let n = s.unicode_len();
    if from >= n {
        return None;
    }
    let mut i = from;
    while i < n
        invariant
            n == s@.len(),
            from <= i <= n,
            forall|k: int| from <= k < i ==> s@[k] != '\n',
        decreases n - i,
    {
        if s.get_char(i) == '\n' {
            proof {
                lemma_newline_skip(s@, from as int, i as int);
            }
            return Some(i);
        }
        i = i + 1;
    }
    proof {
        lemma_newline_skip(s@, from as int, i as int);
    }
    None
}

/// Parses a dictionary record text back into its UUID line and its
/// phonetic notation.
pub fn parse_dictionary_record(s: &str) -> (r: Option<(String, String)>)
    ensures
        match r {
            Some(t) => spec_parse_record(s@) == Some((t.0@, t.1@)),
            None => spec_parse_record(s@) is None,
        },
{
    let n = s.unicode_len();
    if n < 6 {
        return None;
    }
    if !str_eq(s.substring_char(0, 6), "num:0\n") {
        return None;
    }
    // Scan for the line break that ends the UUID line.
    let nl = match find_newline(s, 6) {
        Some(i) => i,
        None => {
            return None;
        },
    };
    proof {
        lemma_newline_props(s@, 6);
    }
    if n - nl < 2 {
        return None;
    }
    if s.get_char(n - 1) != '\n' {
        return None;
    }
    let bs = nl + 1;
    let be = n - 1;
    let blen = be - bs;
    if blen < 8 {
        return None;
    }
    if blen % 2 != 0 {
        return None;
    }
    if !str_eq(s.substring_char(bs, bs + 4), "$2_2") {
        return None;
    }
    let plen = (blen - 8) / 2;
    let p1 = s.substring_char(bs + 4, bs + 4 + plen);
    if !str_eq(s.substring_char(bs + 4 + plen, bs + 8 + plen), "$2_2") {
        return None;
    }
    let p2 = s.substring_char(bs + 8 + plen, be);
    if !str_eq(p1, p2) {
        return None;
    }
    let uuid_line = s.substring_char(6, nl);
    Some((String::from_str(uuid_line), String::from_str(p1)))
}

/// Writing a phrase and parsing the written record back recovers the
/// same UUID text and the same pronunciation, whatever the
/// pronunciation holds, as long as the UUID line has no line break.
pub proof fn lemma_record_round_trip(uuid_text: Seq<char>, pronunciation: Seq<char>)
    requires
        forall|k: int| 0 <= k < uuid_text.len() ==> uuid_text[k] != '\n',
    ensures
        spec_parse_record(spec_record(uuid_text, pronunciation)) == Some(
            (uuid_text, pronunciation),
        ),
{
    reveal_strlit("num:0\n");
    reveal_strlit("\n");
    reveal_strlit("$2_2");
    let s = spec_record(uuid_text, pronunciation);
    let u = uuid_text;
    let p = pronunciation;
    assert(s.len() == 16 + u.len() + 2 * p.len());
    assert(s.subrange(0, 6) =~= "num:0\n"@);
    let nl = 6 + u.len() as int;
    assert(forall|k: int| 6 <= k < nl ==> s[k] == u[k - 6]);
    assert(s[nl] == '\n');
    lemma_newline_skip(s, 6, nl);
    assert(first_newline(s, nl) == Some(nl));
    assert(s[s.len() - 1] == '\n');
    let bs = nl + 1;
    let be = s.len() - 1;
    let blen = be - bs;
    assert(blen == 8 + 2 * p.len());
    assert(s.subrange(bs, bs + 4) =~= "$2_2"@);
    let plen = (blen - 8) / 2;
    assert(plen == p.len());
    assert(s.subrange(bs + 4, bs + 4 + plen) =~= p);
    assert(s.subrange(bs + 4 + plen, bs + 8 + plen) =~= "$2_2"@);
    assert(s.subrange(bs + 8 + plen, be) =~= p);
    assert(s.subrange(6, nl) =~= u);
}

/// The round trip stated of a phrase itself: rendering its record and
/// parsing the rendered text back recovers the phrase's hyphenated UUID
/// and its pronunciation exactly.
pub proof fn lemma_phrase_round_trip(uuid: u128, pronunciation: Seq<char>)
    ensures
        spec_parse_record(spec_record(spec_hyphenated(uuid), pronunciation)) == Some(
            (spec_hyphenated(uuid), pronunciation),
        ),
{
    lemma_hyphenated_no_newline(uuid);
    lemma_record_round_trip(spec_hyphenated(uuid), pronunciation);
}

} // verus!
