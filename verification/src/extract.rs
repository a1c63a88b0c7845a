//! Scanning a filename for an embedded timestamp. The only shape recognized
//! is eight decimal digits (YYYYMMDD), one separator out of `-` and `_`, and
//! six decimal digits (HHMMSS), anywhere in the text; the earliest such run
//! wins. Digits that do not form a valid calendar date and time yield no
//! candidate rather than a clamped or corrected one.

use crate::calendar::TimestampCandidate;
use crate::calendar::valid_date;
use crate::calendar::valid_time;
use vstd::prelude::*;

verus! {

/// ASCII decimal digit.
pub open spec fn is_digit(b: u8) -> bool {
    48 <= b <= 57
}

/// Bytes `i .. i + n` of `s` are all decimal digits.
pub open spec fn digit_run(s: Seq<u8>, i: int, n: int) -> bool {
    forall|j: int| i <= j < i + n ==> is_digit(#[trigger] s[j])
}

/// The timestamp shape starts at byte `i`: eight digits, `-` (45) or `_` (95),
/// six digits.
pub open spec fn pattern_at(s: Seq<u8>, i: int) -> bool {
    &&& 0 <= i
    &&& i + 15 <= s.len()
    &&& digit_run(s, i, 8)
    &&& (s[i + 8] == 45 || s[i + 8] == 95)
    &&& digit_run(s, i + 9, 6)
}

/// Position of the earliest pattern occurrence at or after `i`, if any.
pub open spec fn first_match_from(s: Seq<u8>, i: int) -> Option<int>
    decreases s.len() - i,
{
    if i < 0 || i + 15 > s.len() {
        None
    } else if pattern_at(s, i) {
        Some(i)
    } else {
        first_match_from(s, i + 1)
    }
}

/// Decimal value of the `n` digit bytes starting at `i`.
pub open spec fn field_val(s: Seq<u8>, i: int, n: int) -> int
    decreases n,
{
    if n <= 0 {
        0
    } else {
        field_val(s, i, n - 1) * 10 + (s[i + n - 1] - 48)
    }
}

/// What extraction returns on `s`: the fields of the earliest pattern
/// occurrence, provided they form a valid calendar date and time; no
/// occurrence, or invalid fields, yield nothing.
pub open spec fn spec_extract(s: Seq<u8>) -> Option<TimestampCandidate> {
    match first_match_from(s, 0) {
        None => None,
        Some(i) => {
            let y = field_val(s, i, 4);
            let mo = field_val(s, i + 4, 2);
            let d = field_val(s, i + 6, 2);
            let h = field_val(s, i + 9, 2);
            let mi = field_val(s, i + 11, 2);
            let sec = field_val(s, i + 13, 2);
            if valid_date(y, mo, d) && valid_time(h, mi, sec) {
                Some(
                    TimestampCandidate {
                        year: y as u16,
                        month: mo as u8,
                        day: d as u8,
                        hour: h as u8,
                        minute: mi as u8,
                        second: sec as u8,
                    },
                )
            } else {
                None
            }
        },
    }
}

fn byte_is_digit(b: u8) -> (r: bool)
    ensures
        r == is_digit(b),
{
    48 <= b && b <= 57
}

/// Does the timestamp shape start at byte `i`?
fn check_pattern_at(s: &[u8], i: usize) -> (r: bool)
    requires
        i + 15 <= s@.len(),
    ensures
        r == pattern_at(s@, i as int),
{
    let n = s.len();
    let sep = s[i + 8];
    if sep != 45 && sep != 95 {
        return false;
    }
    let mut j: usize = 0;
    while j < 8
        invariant
            i + 15 <= n == s@.len(),
            j <= 8,
            forall|k: int| i <= k < i + j ==> is_digit(#[trigger] s@[k]),
        decreases 8 - j,
    {
        if !byte_is_digit(s[i + j]) {
            assert(!is_digit(s@[i + j]));
            return false;
        }
        j += 1;
    }
    assert(digit_run(s@, i as int, 8));
    let mut j2: usize = 0;
    while j2 < 6
        invariant
            i + 15 <= n == s@.len(),
            j2 <= 6,
            digit_run(s@, i as int, 8),
            s@[i + 8] == 45 || s@[i + 8] == 95,
            forall|k: int| i + 9 <= k < i + 9 + j2 ==> is_digit(#[trigger] s@[k]),
        decreases 6 - j2,
    {
        if !byte_is_digit(s[i + 9 + j2]) {
            assert(!is_digit(s@[i + 9 + j2]));
            return false;
        }
        j2 += 1;
    }
    assert(digit_run(s@, i + 9, 6));
    true
}

/// Decimal value of two digit bytes.
fn read2(s: &[u8], i: usize) -> (r: u8)
    requires
        i + 2 <= s@.len(),
        digit_run(s@, i as int, 2),
    ensures
        r == field_val(s@, i as int, 2),
        r <= 99,
{
    assert(is_digit(s@[i as int]) && is_digit(s@[i + 1]));
    let r = (s[i] - 48) * 10 + (s[i + 1] - 48);
    assert(field_val(s@, i as int, 0) == 0);
    assert(field_val(s@, i as int, 1) == s@[i as int] - 48);
    r
}

/// Decimal value of four digit bytes.
fn read4(s: &[u8], i: usize) -> (r: u16)
    requires
        i + 4 <= s@.len(),
        digit_run(s@, i as int, 4),
    ensures
        r == field_val(s@, i as int, 4),
        r <= 9999,
{
    assert(is_digit(s@[i as int]) && is_digit(s@[i + 1]) && is_digit(s@[i + 2]) && is_digit(
        s@[i + 3],
    ));
    let r = (s[i] - 48) as u16 * 1000 + (s[i + 1] - 48) as u16 * 100 + (s[i + 2] - 48) as u16 * 10
        + (s[i + 3] - 48) as u16;
    assert(field_val(s@, i as int, 0) == 0);
    assert(field_val(s@, i as int, 1) == s@[i as int] - 48);
    assert(field_val(s@, i as int, 2) == field_val(s@, i as int, 1) * 10 + (s@[i + 1] - 48));
    assert(field_val(s@, i as int, 3) == field_val(s@, i as int, 2) * 10 + (s@[i + 2] - 48));
    r
}

/// Scan a filename for the timestamp shape and return the validated fields of
/// its earliest occurrence, or nothing.
pub fn parse_date_from_filename(filename: &[u8]) -> (r: Option<TimestampCandidate>)
    ensures
        r == spec_extract(filename@),
        r is Some ==> r.unwrap().wf(),
{
    let n = filename.len();
    if n < 15 {
        return None;
    }
    let mut i: usize = 0;
    while i <= n - 15
        invariant
            n == filename@.len(),
            n >= 15,
            i <= n,
            first_match_from(filename@, 0) == first_match_from(filename@, i as int),
        decreases n - i,
    {
        if check_pattern_at(filename, i) {
            let y = read4(filename, i);
            let mo = read2(filename, i + 4);
            let dy = read2(filename, i + 6);
            let h = read2(filename, i + 9);
            let mi = read2(filename, i + 11);
            let se = read2(filename, i + 13);
            assert(first_match_from(filename@, i as int) == Some(i as int));
            return TimestampCandidate::new(y, mo, dy, h, mi, se);
        }
        i += 1;
    }
    None
}

/// If the pattern occurs at `i` and nowhere earlier, it is the earliest
/// occurrence.
pub proof fn lemma_first_match(s: Seq<u8>, k: int, i: int)
    requires
        0 <= k <= i,
        pattern_at(s, i),
        forall|j: int| k <= j < i ==> !pattern_at(s, j),
    ensures
        first_match_from(s, k) == Some(i),
    decreases i - k,
{
    if k < i {
        lemma_first_match(s, k + 1, i);
    }
}

/// Bytes `i .. i + 2` spell the two-digit decimal form of `v`.
pub open spec fn spells2(s: Seq<u8>, i: int, v: int) -> bool {
    &&& 0 <= i
    &&& i + 2 <= s.len()
    &&& s[i] == 48 + v / 10
    &&& s[i + 1] == 48 + v % 10
}

/// Bytes `i .. i + 4` spell the four-digit decimal form of `v`.
pub open spec fn spells4(s: Seq<u8>, i: int, v: int) -> bool {
    &&& 0 <= i
    &&& i + 4 <= s.len()
    &&& s[i] == 48 + v / 1000
    &&& s[i + 1] == 48 + (v / 100) % 10
    &&& s[i + 2] == 48 + (v / 10) % 10
    &&& s[i + 3] == 48 + v % 10
}

proof fn lemma_spells2_val(s: Seq<u8>, i: int, v: int)
    requires
        0 <= v <= 99,
        spells2(s, i, v),
    ensures
        digit_run(s, i, 2),
        field_val(s, i, 2) == v,
{
    assert(0 <= v / 10 <= 9 && 0 <= v % 10 <= 9 && v == (v / 10) * 10 + v % 10) by (nonlinear_arith)
        requires
            0 <= v <= 99,
    ;
    assert(field_val(s, i, 0) == 0);
    assert(field_val(s, i, 1) == s[i] - 48);
}

proof fn lemma_spells4_val(s: Seq<u8>, i: int, v: int)
    requires
        0 <= v <= 9999,
        spells4(s, i, v),
    ensures
        digit_run(s, i, 4),
        field_val(s, i, 4) == v,
{
    assert(0 <= v / 1000 <= 9 && 0 <= (v / 100) % 10 <= 9 && 0 <= (v / 10) % 10 <= 9 && 0 <= v % 10
        <= 9 && v == ((v / 1000) * 10 + (v / 100) % 10) * 100 + ((v / 10) % 10) * 10 + v % 10)
        by (nonlinear_arith)
        requires
            0 <= v <= 9999,
    ;
    assert(field_val(s, i, 0) == 0);
    assert(field_val(s, i, 1) == s[i] - 48);
    assert(field_val(s, i, 2) == field_val(s, i, 1) * 10 + (s[i + 1] - 48));
    assert(field_val(s, i, 3) == field_val(s, i, 2) * 10 + (s[i + 2] - 48));
}

/// The formatted pattern `YYYYMMDD{-,_}HHMMSS` for the given fields stands at
/// byte `i` of `s`.
pub open spec fn spells_pattern_at(
    s: Seq<u8>,
    i: int,
    y: int,
    mo: int,
    d: int,
    h: int,
    mi: int,
    sec: int,
) -> bool {
    &&& 0 <= i
    &&& i + 15 <= s.len()
    &&& spells4(s, i, y)
    &&& spells2(s, i + 4, mo)
    &&& spells2(s, i + 6, d)
    &&& (s[i + 8] == 45 || s[i + 8] == 95)
    &&& spells2(s, i + 9, h)
    &&& spells2(s, i + 11, mi)
    &&& spells2(s, i + 13, sec)
}

/// Round trip of the pattern: formatting a valid date and time as
/// `YYYYMMDD{-,_}HHMMSS`, embedding it in surrounding text with no earlier
/// occurrence of the shape, and extracting recovers exactly the fields.
pub proof fn lemma_pattern_round_trip(
    s: Seq<u8>,
    i: int,
    y: int,
    mo: int,
    d: int,
    h: int,
    mi: int,
    sec: int,
)
    requires
        1000 <= y <= 9999,
        valid_date(y, mo, d),
        valid_time(h, mi, sec),
        spells_pattern_at(s, i, y, mo, d, h, mi, sec),
        forall|j: int| 0 <= j < i ==> !pattern_at(s, j),
    ensures
        spec_extract(s) == Some(
            TimestampCandidate {
                year: y as u16,
                month: mo as u8,
                day: d as u8,
                hour: h as u8,
                minute: mi as u8,
                second: sec as u8,
            },
        ),
{
    lemma_spells4_val(s, i, y);
    lemma_spells2_val(s, i + 4, mo);
    lemma_spells2_val(s, i + 6, d);
    lemma_spells2_val(s, i + 9, h);
    lemma_spells2_val(s, i + 11, mi);
    lemma_spells2_val(s, i + 13, sec);
    assert(digit_run(s, i, 8)) by {
        assert forall|j: int| i <= j < i + 8 implies is_digit(#[trigger] s[j]) by {
            if j < i + 4 {
                assert(is_digit(s[j]));
            } else if j < i + 6 {
                assert(is_digit(s[j]));
            } else {
                assert(is_digit(s[j]));
            }
        }
    }
    assert(digit_run(s, i + 9, 6)) by {
        assert forall|j: int| i + 9 <= j < i + 15 implies is_digit(#[trigger] s[j]) by {
            if j < i + 11 {
                assert(is_digit(s[j]));
            } else if j < i + 13 {
                assert(is_digit(s[j]));
            } else {
                assert(is_digit(s[j]));
            }
        }
    }
    assert(pattern_at(s, i));
    lemma_first_match(s, 0, i);
}

} // verus!
