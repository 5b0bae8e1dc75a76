//! Identifiers: fresh request ids, deterministic speaker ids, and the
//! canonical hyphenated text form used as dictionary keys and in the
//! speakers listing.
//!
//! An identifier is carried as the 128-bit big-endian value of the UUID;
//! the hyphenated text form is produced by verified code.

use vstd::prelude::*;

verus! {

/// The 128-bit value of the name-based (SHA-1, OID namespace) UUID of a
/// name. A pure function of the name alone, fixed by the UUID standard.
pub uninterp spec fn uuid_v5_oid_of(s: Seq<char>) -> u128;

/// Relies on `uuid::Uuid::new_v4`: a fresh random identifier. Nothing is
/// promised of the value; callers treat every outcome alike.
#[verifier::external_body]
pub fn random_uuid() -> u128 {
    uuid::Uuid::new_v4().as_u128()
}

/// Relies on `uuid::Uuid::new_v5` with the OID namespace: the result is
/// derived from the name bytes alone, the same on every run.
#[verifier::external_body]
pub fn uuid_v5_oid(name: &String) -> (r: u128)
    ensures
        r == uuid_v5_oid_of(name@),
{
    uuid::Uuid::new_v5(&uuid::Uuid::NAMESPACE_OID, name.as_bytes()).as_u128()
}

/// The lowercase hexadecimal digit for a value below sixteen.
pub open spec fn hex_digit(d: int) -> char {
    if d == 0 { '0' } else if d == 1 { '1' } else if d == 2 { '2' } else if d == 3 { '3' }
    else if d == 4 { '4' } else if d == 5 { '5' } else if d == 6 { '6' } else if d == 7 { '7' }
    else if d == 8 { '8' } else if d == 9 { '9' } else if d == 10 { 'a' } else if d == 11 { 'b' }
    else if d == 12 { 'c' } else if d == 13 { 'd' } else if d == 14 { 'e' } else { 'f' }
}

/// Sixteen to the given power.
pub open spec fn pow16(k: nat) -> int
    decreases k,
{
    if k == 0 { 1 } else { 16 * pow16((k - 1) as nat) }
}

/// The 32 hexadecimal digits of a 128-bit value, most significant first.
pub open spec fn uuid_digits(u: u128) -> Seq<char> {
    Seq::new(32, |i: int| hex_digit((u as int / pow16((31 - i) as nat)) % 16))
}

/// The canonical hyphenated text of a 128-bit identifier: the 32 hex
/// digits in groups of 8-4-4-4-12 separated by hyphens.
pub open spec fn spec_hyphenated(u: u128) -> Seq<char> {
    let d = uuid_digits(u);
    d.subrange(0, 8) + seq!['-'] + d.subrange(8, 12) + seq!['-'] + d.subrange(12, 16)
        + seq!['-'] + d.subrange(16, 20) + seq!['-'] + d.subrange(20, 32)
}

/// The single-character string of one lowercase hexadecimal digit.
fn hex_digit_str(d: u8) -> (r: &'static str)
    requires
        d < 16,
    ensures
        r@.len() == 1,
        r@[0] == hex_digit(d as int),
{
    proof {
        reveal_strlit("0"); reveal_strlit("1"); reveal_strlit("2"); reveal_strlit("3");
        reveal_strlit("4"); reveal_strlit("5"); reveal_strlit("6"); reveal_strlit("7");
        reveal_strlit("8"); reveal_strlit("9"); reveal_strlit("a"); reveal_strlit("b");
        reveal_strlit("c"); reveal_strlit("d"); reveal_strlit("e"); reveal_strlit("f");
    }
    match d {
        0 => "0",
        1 => "1",
        2 => "2",
        3 => "3",
        4 => "4",
        5 => "5",
        6 => "6",
        7 => "7",
        8 => "8",
        9 => "9",
        10 => "a",
        11 => "b",
        12 => "c",
        13 => "d",
        14 => "e",
        _ => "f",
    }
}

/// The 32 hexadecimal digits of a 128-bit value, most significant first.
pub fn format_hex32(u: u128) -> (s: String)
    ensures
        s@ == uuid_digits(u),
{
    let mut out = String::new();
    // 16 to the 31st power: the place value of the leading digit.
    let mut place: u128 = 0x1000_0000_0000_0000_0000_0000_0000_0000;
    let mut i: usize = 0;
    proof {
        reveal_with_fuel(pow16, 33);
        assert(pow16(31) == 0x1000_0000_0000_0000_0000_0000_0000_0000int);
    }
    while i < 32
        invariant
            i <= 32,
            out@ =~= uuid_digits(u).subrange(0, i as int),
            i < 32 ==> place == pow16((31 - i) as nat),
            place >= 1,
        decreases 32 - i,
    {
        let q = u / place;
        let d = (q % 16) as u8;
        let ghost prev = out@;
        out.append(hex_digit_str(d));
        proof {
            assert(uuid_digits(u)[i as int] == hex_digit((u as int / pow16((31 - i) as nat)) % 16));
            assert(out@ =~= uuid_digits(u).subrange(0, i as int + 1));
        }
        if i < 31 {
            proof {
                assert(pow16((31 - i) as nat) == 16 * pow16((31 - (i + 1)) as nat));
                assert(16 * pow16((31 - (i + 1)) as nat) >= 16) by {
                    lemma_pow16_pos((31 - (i + 1)) as nat);
                };
                assert((16 * pow16((31 - (i + 1)) as nat)) / 16 == pow16((31 - (i + 1)) as nat))
                    by (nonlinear_arith);
            }
            place = place / 16;
        }
        i = i + 1;
    }
    out
}

proof fn lemma_pow16_pos(k: nat)
    ensures
        pow16(k) >= 1,
    decreases k,
{
    if k > 0 {
        lemma_pow16_pos((k - 1) as nat);
    }
}

/// Formats a 128-bit identifier in the canonical hyphenated form.
pub fn hyphenated(u: u128) -> (s: String)
    ensures
        s@ == spec_hyphenated(u),
{
    let digits = format_hex32(u);
    let d = digits.as_str();
    let mut out = String::new();
    out.append(d.substring_char(0, 8));
    out.append("-");
    out.append(d.substring_char(8, 12));
    out.append("-");
    out.append(d.substring_char(12, 16));
    out.append("-");
    out.append(d.substring_char(16, 20));
    out.append("-");
    out.append(d.substring_char(20, 32));
    proof {
        reveal_strlit("-");
        assert(out@ =~= spec_hyphenated(u));
    }
    out
}

/// No character of the hyphenated form is a line break: every position
/// holds a hexadecimal digit or a hyphen.
pub proof fn lemma_hyphenated_no_newline(u: u128)
    ensures
        spec_hyphenated(u).len() == 36,
        forall|i: int| 0 <= i < 36 ==> spec_hyphenated(u)[i] != '\n',
{
    let s = spec_hyphenated(u);
    assert forall|i: int| 0 <= i < 36 implies s[i] != '\n' by {
        let d = uuid_digits(u);
        assert(forall|j: int| 0 <= j < 32 ==> d[j] == hex_digit((u as int / pow16((31 - j) as nat)) % 16));
        assert(forall|v: int| hex_digit(v) != '\n');
    }
}

} // verus!
