//! Byte-text helpers: ASCII conversion, subsequence search and vector
//! splicing, the ground the settings patcher stands on.

use vstd::prelude::*;
use vstd::utf8::is_ascii_chars;

verus! {

/// The bytes of an ASCII character sequence, one byte per character.
pub open spec fn ascii_seq(s: Seq<char>) -> Seq<u8> {
    Seq::new(s.len(), |i: int| s[i] as u8)
}

/// Converts ASCII text to its bytes.
pub fn ascii_bytes(s: &str) -> (r: Vec<u8>)
    requires
        s.is_ascii(),
    ensures
        r@ == ascii_seq(s@),
{
    let n = s.unicode_len();
    let mut out: Vec<u8> = Vec::new();
    let mut i: usize = 0;
    while i < n
        invariant
            s.is_ascii(),
            n == s@.len(),
            i <= n,
            out@ =~= ascii_seq(s@).subrange(0, i as int),
        decreases n - i,
    {
        out.push(s.get_ascii(i));
        proof {
            assert(out@ =~= ascii_seq(s@).subrange(0, i as int + 1));
        }
        i = i + 1;
    }
    proof {
        assert(out@ =~= ascii_seq(s@));
    }
    out
}

/// Whether the pattern `n` occurs in `h` at position `i`.
pub open spec fn match_at(h: Seq<u8>, n: Seq<u8>, i: int) -> bool {
    &&& 0 <= i
    &&& i + n.len() <= h.len()
    &&& h.subrange(i, i + n.len()) == n
}

/// The first position at or after `from` where the pattern occurs, if any.
pub open spec fn spec_find(h: Seq<u8>, n: Seq<u8>, from: int) -> Option<int>
    recommends
        0 <= from,
    decreases h.len() - from,
{
    if from < 0 || from + n.len() > h.len() {
        None
    } else if n.len() == 0 || match_at(h, n, from) {
        Some(from)
    } else {
        spec_find(h, n, from + 1)
    }
}

proof fn lemma_find_skip(h: Seq<u8>, n: Seq<u8>, from: int, upto: int)
    requires
        0 <= from <= upto,
        forall|k: int| from <= k < upto ==> !match_at(h, n, k),
    ensures
        spec_find(h, n, from) == spec_find(h, n, upto),
    decreases upto - from,
{
    if from < upto {
        if n.len() == 0 && from + n.len() <= h.len() {
            // An empty pattern matches everywhere, contradicting the premise.
            assert(h.subrange(from, from) =~= n);
            assert(match_at(h, n, from));
        } else {
            lemma_find_skip(h, n, from + 1, upto);
        }
    }
}

/// Whether the pattern occurs at the given position.
fn is_match_at(h: &Vec<u8>, n: &Vec<u8>, i: usize) -> (r: bool)
    requires
        i + n@.len() <= h@.len(),
    ensures
        r == match_at(h@, n@, i as int),
{
    let hl = h.len();
    let mut j: usize = 0;
    while j < n.len()
        invariant
            hl == h@.len(),
            i + n@.len() <= h@.len(),
            j <= n@.len(),
            forall|k: int| 0 <= k < j ==> h@[i + k] == n@[k],
        decreases n@.len() - j,
    {
        if h[i + j] != n[j] {
            proof {
                assert(h@.subrange(i as int, i + n@.len()) != n@) by {
                    assert(h@.subrange(i as int, i + n@.len())[j as int] == h@[i + j]);
                }
            }
            return false;
        }
        j = j + 1;
    }
    proof {
        assert(h@.subrange(i as int, i + n@.len()) =~= n@);
    }
    true
}

/// Finds the first occurrence of the pattern at or after `from`.
pub fn find_sub(h: &Vec<u8>, n: &Vec<u8>, from: usize) -> (r: Option<usize>)
    ensures
        match r {
            Some(i) => spec_find(h@, n@, from as int) == Some(i as int),
            None => spec_find(h@, n@, from as int) is None,
        },
{
    if n.len() > h.len() {
        return None;
    }
    if n.len() == 0 {
        if from <= h.len() {
            proof {
                assert(h@.subrange(from as int, from as int) =~= n@);
            }
            return Some(from);
        } else {
            return None;
        }
    }
    // One past the last position a match could start at.
    let end = h.len() - n.len() + 1;
    let mut i = from;
    if i >= end {
        proof {
            lemma_find_skip(h@, n@, from as int, i as int);
        }
        return None;
    }
    while i < end
        invariant
            1 <= n@.len() <= h@.len(),
            end == h@.len() - n@.len() + 1,
            from <= i <= end,
            forall|k: int| from <= k < i ==> !match_at(h@, n@, k),
        decreases end - i,
    {
        if is_match_at(h, n, i) {
            proof {
                lemma_find_skip(h@, n@, from as int, i as int);
            }
            return Some(i);
        }
        i = i + 1;
    }
    proof {
        lemma_find_skip(h@, n@, from as int, i as int);
    }
    None
}

/// Compares two texts character by character.
pub fn str_eq(a: &str, b: &str) -> (r: bool)
    ensures
        r <==> a@ == b@,
{
    let na = a.unicode_len();
    let nb = b.unicode_len();
    if na != nb {
        return false;
    }
    let mut i: usize = 0;
    while i < na
        invariant
            na == a@.len(),
            na == b@.len(),
            i <= na,
            forall|k: int| 0 <= k < i ==> a@[k] == b@[k],
        decreases na - i,
    {
        if a.get_char(i) != b.get_char(i) {
            return false;
        }
        i = i + 1;
    }
    proof {
        assert(a@ =~= b@);
    }
    true
}

/// Whether two characters are equal up to ASCII letter case.
pub open spec fn ascii_case_eq_char(a: char, b: char) -> bool {
    ||| a == b
    ||| ('A' <= a && a <= 'Z' && b as u32 == a as u32 + 32)
    ||| ('A' <= b && b <= 'Z' && a as u32 == b as u32 + 32)
}

/// Whether two texts are equal up to ASCII letter case.
pub open spec fn ascii_case_eq(a: Seq<char>, b: Seq<char>) -> bool {
    a.len() == b.len() && forall|k: int| 0 <= k < a.len() ==> ascii_case_eq_char(a[k], b[k])
}

/// Compares two texts ignoring ASCII letter case.
pub fn eq_ignore_ascii_case(a: &str, b: &str) -> (r: bool)
    ensures
        r <==> ascii_case_eq(a@, b@),
{
    let na = a.unicode_len();
    let nb = b.unicode_len();
    if na != nb {
        return false;
    }
    let mut i: usize = 0;
    while i < na
        invariant
            na == a@.len(),
            na == b@.len(),
            i <= na,
            forall|k: int| 0 <= k < i ==> ascii_case_eq_char(a@[k], b@[k]),
        decreases na - i,
    {
        let ca = a.get_char(i);
        let cb = b.get_char(i);
        let same = if ca == cb {
            true
        } else if 'A' <= ca && ca <= 'Z' && (cb as u32) == (ca as u32) + 32 {
            true
        } else if 'A' <= cb && cb <= 'Z' && (ca as u32) == (cb as u32) + 32 {
            true
        } else {
            false
        };
        if !same {
            return false;
        }
        i = i + 1;
    }
    true
}

/// Copies the byte range `[a, b)` out of a vector.
pub fn vec_range(h: &Vec<u8>, a: usize, b: usize) -> (r: Vec<u8>)
    requires
        a <= b <= h@.len(),
    ensures
        r@ == h@.subrange(a as int, b as int),
{
    let mut out: Vec<u8> = Vec::new();
    let mut k = a;
    while k < b
        invariant
            a <= k <= b <= h@.len(),
            out@ =~= h@.subrange(a as int, k as int),
        decreases b - k,
    {
        out.push(h[k]);
        proof {
            assert(out@ =~= h@.subrange(a as int, k as int + 1));
        }
        k = k + 1;
    }
    out
}

/// Appends a copy of `src` to `dst`.
pub fn vec_extend(dst: &mut Vec<u8>, src: &Vec<u8>)
    ensures
        final(dst)@ == old(dst)@ + src@,
{
    let mut k: usize = 0;
    while k < src.len()
        invariant
            k <= src@.len(),
            dst@ =~= old(dst)@ + src@.subrange(0, k as int),
        decreases src@.len() - k,
    {
        dst.push(src[k]);
        proof {
            assert(dst@ =~= old(dst)@ + src@.subrange(0, k as int + 1));
        }
        k = k + 1;
    }
    proof {
        assert(dst@ =~= old(dst)@ + src@);
    }
}

} // verus!
