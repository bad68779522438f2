//! Text as a sequence of characters: searching, trimming, splitting, and decimal numbers.

use vstd::prelude::*;
use vstd::slice::slice_subrange;
use vstd::utf8::{decode_utf8, valid_utf8};

verus! {

/// `needle` stands in `hay` at position `at`.
pub open spec fn matches_at(hay: Seq<char>, needle: Seq<char>, at: int) -> bool {
    &&& 0 <= at
    &&& at + needle.len() <= hay.len()
    &&& hay.subrange(at, at + needle.len()) == needle
}

/// `needle` stands somewhere in `hay`.
pub open spec fn contains_text(hay: Seq<char>, needle: Seq<char>) -> bool {
    exists|at: int| matches_at(hay, needle, at)
}

/// `at` is the leftmost position of `needle` in `hay`.
pub open spec fn first_match(hay: Seq<char>, needle: Seq<char>, at: int) -> bool {
    &&& matches_at(hay, needle, at)
    &&& forall|before: int| before < at ==> !matches_at(hay, needle, before)
}

/// The characters of `s`, in order.
pub fn chars_of(s: &str) -> (r: Vec<char>)
    ensures
        r@ == s@,
{
    let mut out: Vec<char> = Vec::new();
    for c in it: s.chars()
        invariant
            out@ == it.seq().take(it.index() as int),
            it.seq() == s@,
    {
        out.push(c);
    }
    out
}

/// Calls `core::str::from_utf8`: the text that the bytes encode, where they are valid UTF-8.
#[verifier::external_body]
pub(crate) fn utf8_text(bytes: &[u8]) -> (r: Option<&str>)
    ensures
        match r {
            Some(t) => valid_utf8(bytes@) && t@ == decode_utf8(bytes@),
            None => !valid_utf8(bytes@),
        },
{
    core::str::from_utf8(bytes).ok()
}

/// The text that `String::from_utf8_lossy` makes of bytes that are not valid UTF-8.
pub uninterp spec fn mended_utf8(bytes: Seq<u8>) -> Seq<char>;

/// The text of the bytes: what they encode, or else what is left when the invalid parts are
/// replaced.
pub open spec fn lossy(bytes: Seq<u8>) -> Seq<char> {
    if valid_utf8(bytes) {
        decode_utf8(bytes)
    } else {
        mended_utf8(bytes)
    }
}

/// Calls `String::from_utf8_lossy`: the text that the bytes encode; where they are not valid
/// UTF-8, a text that depends on the bytes alone.
#[verifier::external_body]
pub(crate) fn lossy_text(bytes: &[u8]) -> (r: String)
    ensures
        valid_utf8(bytes@) ==> r@ == decode_utf8(bytes@),
        !valid_utf8(bytes@) ==> r@ == mended_utf8(bytes@),
{
    String::from_utf8_lossy(bytes).into_owned()
}

/// The text that `str::to_lowercase` makes of a text.
pub uninterp spec fn lowercase(s: Seq<char>) -> Seq<char>;

/// Calls `str::to_lowercase`, whose result depends on the text alone.
#[verifier::external_body]
pub(crate) fn to_lowercase(s: &str) -> (r: String)
    ensures
        r@ == lowercase(s@),
{
    s.to_lowercase()
}

fn stands_at(hay: &[char], needle: &[char], at: usize) -> (r: bool)
    requires
        at + needle@.len() <= hay@.len(),
    ensures
        r == matches_at(hay@, needle@, at as int),
{
    let hay_len: usize = hay.len();
    let mut i: usize = 0;
    while i < needle.len()
        invariant
            i <= needle@.len(),
            at + needle@.len() <= hay@.len() == hay_len,
            forall|k: int| 0 <= k < i ==> hay@[at + k] == needle@[k],
        decreases needle@.len() - i,
    {
        if hay[at + i] != needle[i] {
            proof {
                assert(hay@.subrange(at as int, at + needle@.len())[i as int] != needle@[i as int]);
            }
            return false;
        }
        i += 1;
    }
    assert(hay@.subrange(at as int, at + needle@.len()) =~= needle@);
    true
}

/// The leftmost position of `needle` in `hay`, if there is one.
pub fn find_text(hay: &[char], needle: &[char]) -> (r: Option<usize>)
    ensures
        match r {
            Some(at) => first_match(hay@, needle@, at as int),
            None => !contains_text(hay@, needle@),
        },
{
    if needle.len() > hay.len() {
        return None;
    }
    let last: usize = hay.len() - needle.len();
    let mut at: usize = 0;
    loop
        invariant
            last == hay@.len() - needle@.len(),
            at <= last,
            forall|before: int| before < at ==> !matches_at(hay@, needle@, before),
        decreases last - at,
    {
        if stands_at(hay, needle, at) {
            return Some(at);
        }
        if at == last {
            return None;
        }
        at += 1;
    }
}

/// Whether `needle` stands somewhere in `hay`.
pub fn contains(hay: &str, needle: &str) -> (r: bool)
    ensures
        r == contains_text(hay@, needle@),
{
    let h: Vec<char> = chars_of(hay);
    let n: Vec<char> = chars_of(needle);
    match find_text(h.as_slice(), n.as_slice()) {
        Some(_) => true,
        None => false,
    }
}

/// Whether two texts have the same characters.
pub fn same(a: &str, b: &str) -> (r: bool)
    ensures
        r == (a@ == b@),
{
    same_chars(chars_of(a).as_slice(), chars_of(b).as_slice())
}

/// Whether two runs of characters are equal.
pub fn same_chars(a: &[char], b: &[char]) -> (r: bool)
    ensures
        r == (a@ == b@),
{
    if a.len() != b.len() {
        return false;
    }
    let mut i: usize = 0;
    while i < a.len()
        invariant
            i <= a@.len() == b@.len(),
            a@.take(i as int) == b@.take(i as int),
        decreases a@.len() - i,
    {
        if a[i] != b[i] {
            return false;
        }
        assert(a@.take(i + 1) =~= a@.take(i as int).push(a@[i as int]));
        assert(b@.take(i + 1) =~= b@.take(i as int).push(b@[i as int]));
        i += 1;
    }
    assert(a@.take(i as int) =~= a@);
    assert(b@.take(i as int) =~= b@);
    true
}

/// Whether `s` begins with `prefix`.
pub fn starts_with(s: &str, prefix: &str) -> (r: bool)
    ensures
        r == matches_at(s@, prefix@, 0),
{
    let t: Vec<char> = chars_of(s);
    let p: Vec<char> = chars_of(prefix);
    p.len() <= t.len() && stands_at(t.as_slice(), p.as_slice(), 0)
}

/// Whether `s` ends with `suffix`.
pub fn ends_with(s: &str, suffix: &str) -> (r: bool)
    ensures
        r == matches_at(s@, suffix@, s@.len() - suffix@.len()),
{
    let t: Vec<char> = chars_of(s);
    let p: Vec<char> = chars_of(suffix);
    p.len() <= t.len() && stands_at(t.as_slice(), p.as_slice(), t.len() - p.len())
}

/// An ASCII capital letter in lower case; every other character as it is.
pub open spec fn ascii_lower(c: char) -> char {
    if 'A' <= c <= 'Z' {
        (c as int + 32) as char
    } else {
        c
    }
}

/// Two texts that differ at most in the case of ASCII letters.
pub open spec fn same_but_for_ascii_case(a: Seq<char>, b: Seq<char>) -> bool {
    a.map_values(|c: char| ascii_lower(c)) == b.map_values(|c: char| ascii_lower(c))
}

fn to_ascii_lower(c: char) -> (r: char)
    ensures
        r == ascii_lower(c),
{
    if 'A' <= c && c <= 'Z' {
        (c as u8 + 32) as char
    } else {
        c
    }
}

/// Whether two runs of characters differ at most in the case of ASCII letters.
pub fn eq_ignore_ascii_case(a: &[char], b: &[char]) -> (r: bool)
    ensures
        r == same_but_for_ascii_case(a@, b@),
{
    let ghost la = a@.map_values(|c: char| ascii_lower(c));
    let ghost lb = b@.map_values(|c: char| ascii_lower(c));
    if a.len() != b.len() {
        assert(la.len() != lb.len());
        return false;
    }
    let mut i: usize = 0;
    while i < a.len()
        invariant
            i <= a@.len() == b@.len(),
            la == a@.map_values(|c: char| ascii_lower(c)),
            lb == b@.map_values(|c: char| ascii_lower(c)),
            forall|k: int| 0 <= k < i ==> la[k] == lb[k],
        decreases a@.len() - i,
    {
        if to_ascii_lower(a[i]) != to_ascii_lower(b[i]) {
            assert(la[i as int] != lb[i as int]);
            return false;
        }
        i += 1;
    }
    assert(la =~= lb);
    true
}

/// The characters of the Unicode property White_Space.
pub open spec fn white_space(c: char) -> bool {
    ||| '\u{9}' <= c <= '\u{d}'
    ||| c == '\u{20}'
    ||| c == '\u{85}'
    ||| c == '\u{a0}'
    ||| c == '\u{1680}'
    ||| '\u{2000}' <= c <= '\u{200a}'
    ||| c == '\u{2028}'
    ||| c == '\u{2029}'
    ||| c == '\u{202f}'
    ||| c == '\u{205f}'
    ||| c == '\u{3000}'
}

fn is_white_space(c: char) -> (r: bool)
    ensures
        r == white_space(c),
{
    ('\u{9}' <= c && c <= '\u{d}') || c == '\u{20}' || c == '\u{85}' || c == '\u{a0}' || c
        == '\u{1680}' || ('\u{2000}' <= c && c <= '\u{200a}') || c == '\u{2028}' || c == '\u{2029}'
        || c == '\u{202f}' || c == '\u{205f}' || c == '\u{3000}'
}

/// `s` without the white space at its two ends.
pub open spec fn trimmed(s: Seq<char>) -> Seq<char>
    decreases s.len(),
{
    if s.len() > 0 && white_space(s.first()) {
        trimmed(s.skip(1))
    } else if s.len() > 0 && white_space(s.last()) {
        trimmed(s.drop_last())
    } else {
        s
    }
}

/// Where the text of `s` begins and ends once the white space at its two ends is left out.
fn trim_bounds(s: &[char]) -> (r: (usize, usize))
    ensures
        r.0 <= r.1 <= s@.len(),
        s@.subrange(r.0 as int, r.1 as int) == trimmed(s@),
{
    let mut lo: usize = 0;
    let mut hi: usize = s.len();
    assert(s@.subrange(0, s@.len() as int) =~= s@);
    while lo < hi && is_white_space(s[lo])
        invariant
            lo <= hi,
            hi == s@.len(),
            trimmed(s@.subrange(lo as int, hi as int)) == trimmed(s@),
        decreases hi - lo,
    {
        assert(s@.subrange(lo as int, hi as int).skip(1) =~= s@.subrange(lo + 1, hi as int));
        lo += 1;
    }
    while lo < hi && is_white_space(s[hi - 1])
        invariant
            lo <= hi <= s@.len(),
            lo < hi ==> !white_space(s@[lo as int]),
            trimmed(s@.subrange(lo as int, hi as int)) == trimmed(s@),
        decreases hi - lo,
    {
        assert(s@.subrange(lo as int, hi as int).drop_last() =~= s@.subrange(lo as int, hi - 1));
        hi -= 1;
    }
    (lo, hi)
}

/// `s` without the white space at its two ends.
pub fn trim_chars(s: &[char]) -> (r: &[char])
    ensures
        r@ == trimmed(s@),
{
    let (lo, hi) = trim_bounds(s);
    slice_subrange(s, lo, hi)
}

/// `s` without the white space at its two ends.
pub fn trim(s: &str) -> (r: &str)
    ensures
        r@ == trimmed(s@),
{
    let (lo, hi) = trim_bounds(chars_of(s).as_slice());
    s.substring_char(lo, hi)
}

/// The trimmed text of `raw`, unless there is none or it is empty.
pub fn nonempty_trimmed(raw: Option<&str>) -> (r: Option<String>)
    ensures
        match r {
            Some(t) => raw is Some && t@ == trimmed(raw->0@) && t@.len() > 0,
            None => raw is None || trimmed(raw->0@).len() == 0,
        },
{
    match raw {
        Some(value) => {
            let t: &str = trim(value);
            if t.is_empty() {
                None
            } else {
                Some(t.to_string())
            }
        },
        None => None,
    }
}

/// The position of the first line feed in `s`, or the length of `s`.
pub open spec fn line_end(s: Seq<char>) -> int
    decreases s.len(),
{
    if s.len() == 0 || s.first() == '\n' {
        0
    } else {
        1 + line_end(s.skip(1))
    }
}

/// `s` without one carriage return at its end.
pub open spec fn without_carriage_return(s: Seq<char>) -> Seq<char> {
    if s.len() > 0 && s.last() == '\r' {
        s.drop_last()
    } else {
        s
    }
}

/// The lines of `s`: each ends before a line feed, or before a carriage return and a line feed;
/// a text that ends with a line feed has no further line after it.
pub open spec fn lines_of(s: Seq<char>) -> Seq<Seq<char>>
    decreases s.len(),
    via lines_of_decreases
{
    if s.len() == 0 {
        Seq::empty()
    } else if line_end(s) == s.len() {
        seq![s]
    } else {
        seq![without_carriage_return(s.take(line_end(s)))] + lines_of(s.skip(line_end(s) + 1))
    }
}

#[via_fn]
proof fn lines_of_decreases(s: Seq<char>) {
    lemma_line_end(s);
}

proof fn lemma_line_end(s: Seq<char>)
    ensures
        0 <= line_end(s) <= s.len(),
        line_end(s) < s.len() ==> s[line_end(s)] == '\n',
        forall|k: int| 0 <= k < line_end(s) ==> s[k] != '\n',
    decreases s.len(),
{
    if s.len() > 0 && s.first() != '\n' {
        lemma_line_end(s.skip(1));
        assert forall|k: int| 0 <= k < line_end(s) implies s[k] != '\n' by {
            if k > 0 {
                assert(s[k] == s.skip(1)[k - 1]);
            }
        }
    }
}

proof fn lemma_line_end_unique(s: Seq<char>, end: int)
    requires
        0 <= end <= s.len(),
        end < s.len() ==> s[end] == '\n',
        forall|k: int| 0 <= k < end ==> s[k] != '\n',
    ensures
        line_end(s) == end,
{
    lemma_line_end(s);
    if line_end(s) < end {
        assert(s[line_end(s)] != '\n');
    } else if end < line_end(s) {
        assert(s[end] != '\n');
    }
}

/// The lines of `s`.
pub fn lines<'a>(s: &'a [char]) -> (r: Vec<&'a [char]>)
    ensures
        r@.map_values(|line: &'a [char]| line@) == lines_of(s@),
{
    let mut out: Vec<&'a [char]> = Vec::new();
    let ghost views = |v: Seq<&'a [char]>| v.map_values(|line: &'a [char]| line@);
    let n: usize = s.len();
    let mut start: usize = 0;
    proof {
        assert(s@.skip(0) =~= s@);
        assert(views(out@) + lines_of(s@.skip(0)) =~= lines_of(s@));
    }
    while start < n
        invariant
            start <= n == s@.len(),
            views == (|v: Seq<&'a [char]>| v.map_values(|line: &'a [char]| line@)),
            views(out@) + lines_of(s@.skip(start as int)) == lines_of(s@),
        decreases n - start,
    {
        let ghost rest = s@.skip(start as int);
        let mut end: usize = start;
        while end < n && s[end] != '\n'
            invariant
                start <= end <= n == s@.len(),
                forall|k: int| start <= k < end ==> s@[k] != '\n',
            decreases n - end,
        {
            end += 1;
        }
        proof {
            lemma_line_end_unique(rest, end - start);
        }
        if end == n {
            let line: &'a [char] = slice_subrange(s, start, n);
            let ghost before = out@;
            out.push(line);
            proof {
                assert(line@ =~= rest);
                assert(views(out@) =~= views(before).push(rest));
                assert(s@.skip(n as int) =~= Seq::<char>::empty());
                assert(views(out@) + lines_of(s@.skip(n as int)) =~= views(before) + lines_of(rest));
            }
            start = n;
        } else {
            let stop: usize = if end > start && s[end - 1] == '\r' {
                end - 1
            } else {
                end
            };
            let line: &'a [char] = slice_subrange(s, start, stop);
            let ghost before = out@;
            out.push(line);
            proof {
                assert(rest.take(end - start) =~= s@.subrange(start as int, end as int));
                assert(line@ =~= without_carriage_return(rest.take(end - start)));
                assert(rest.skip(end - start + 1) =~= s@.skip(end + 1));
                assert(views(out@) =~= views(before).push(line@));
                assert(views(out@) + lines_of(s@.skip(end + 1)) =~= views(before) + lines_of(rest));
            }
            start = end + 1;
        }
    }
    proof {
        assert(s@.skip(start as int) =~= Seq::<char>::empty());
        assert(views(out@) =~= lines_of(s@));
    }
    out
}

/// `c` is one of the ten decimal digits.
pub open spec fn is_digit(c: char) -> bool {
    '0' <= c <= '9'
}

/// The value of a decimal digit.
pub open spec fn digit_value(c: char) -> int {
    c as int - '0' as int
}

/// Every character of `s` is a decimal digit.
pub open spec fn all_digits(s: Seq<char>) -> bool {
    forall|i: int| 0 <= i < s.len() ==> is_digit(#[trigger] s[i])
}

/// The number that a run of decimal digits writes; the empty run writes zero.
pub open spec fn digits_value(s: Seq<char>) -> int
    decreases s.len(),
{
    if s.len() == 0 {
        0
    } else {
        10 * digits_value(s.drop_last()) + digit_value(s.last())
    }
}

/// The number that `s` writes as one or more digits, perhaps after a plus sign, where it is no
/// more than `max`.
pub open spec fn unsigned_number(s: Seq<char>, max: int) -> Option<int> {
    let digits = if s.len() > 0 && s.first() == '+' {
        s.skip(1)
    } else {
        s
    };
    if digits.len() > 0 && all_digits(digits) && digits_value(digits) <= max {
        Some(digits_value(digits))
    } else {
        None
    }
}

/// The number that `s` writes as one or more digits, perhaps after a sign, where it lies between
/// `-max - 1` and `max`.
pub open spec fn signed_number(s: Seq<char>, max: int) -> Option<int> {
    if s.len() > 0 && s.first() == '-' {
        let digits = s.skip(1);
        if digits.len() > 0 && all_digits(digits) && digits_value(digits) <= max + 1 {
            Some(-digits_value(digits))
        } else {
            None
        }
    } else {
        unsigned_number(s, max)
    }
}

proof fn lemma_digits_value_step(s: Seq<char>, i: int)
    requires
        0 <= i < s.len(),
    ensures
        digits_value(s.take(i + 1)) == 10 * digits_value(s.take(i)) + digit_value(s[i]),
{
    assert(s.take(i + 1).drop_last() =~= s.take(i));
}

proof fn lemma_digits_value_grows(s: Seq<char>, i: int)
    requires
        all_digits(s),
        0 <= i <= s.len(),
    ensures
        0 <= digits_value(s.take(i)) <= digits_value(s),
    decreases s.len() - i, i,
{
    assert(s.take(s.len() as int) =~= s);
    if i < s.len() {
        lemma_digits_value_nonnegative(s.take(i));
        lemma_digits_value_step(s, i);
        lemma_digits_value_grows(s, i + 1);
    } else {
        lemma_digits_value_nonnegative(s);
    }
}

proof fn lemma_digits_value_nonnegative(s: Seq<char>)
    requires
        all_digits(s),
    ensures
        0 <= digits_value(s),
    decreases s.len(),
{
    if s.len() > 0 {
        assert(is_digit(s[s.len() - 1]));
        lemma_digits_value_nonnegative(s.drop_last());
    }
}

/// Reads a run of digits as a number no larger than `max`.
fn parse_digits(s: &[char], max: u128) -> (r: Option<u128>)
    requires
        max <= 0xffff_ffff_ffff_ffff_ffff,
    ensures
        match r {
            Some(n) => s@.len() > 0 && all_digits(s@) && digits_value(s@) == n && n <= max,
            None => !(s@.len() > 0 && all_digits(s@) && digits_value(s@) <= max),
        },
{
    if s.len() == 0 {
        return None;
    }
    let mut value: u128 = 0;
    let mut i: usize = 0;
    while i < s.len()
        invariant
            i <= s@.len(),
            all_digits(s@.take(i as int)),
            value == digits_value(s@.take(i as int)),
            value <= max <= 0xffff_ffff_ffff_ffff_ffff,
        decreases s@.len() - i,
    {
        let c: char = s[i];
        if !('0' <= c && c <= '9') {
            assert(!is_digit(s@[i as int]));
            return None;
        }
        let next: u128 = value * 10 + (c as u128 - '0' as u128);
        proof {
            lemma_digits_value_step(s@, i as int);
            assert(s@.take(i + 1) =~= s@.take(i as int).push(c));
        }
        if next > max {
            proof {
                if all_digits(s@) {
                    lemma_digits_value_grows(s@, i + 1);
                }
            }
            return None;
        }
        value = next;
        i += 1;
    }
    assert(s@.take(i as int) =~= s@);
    Some(value)
}

/// Reads `s` as an unsigned 64-bit number.
pub fn parse_u64(s: &str) -> (r: Option<u64>)
    ensures
        match r {
            Some(n) => unsigned_number(s@, u64::MAX as int) == Some(n as int),
            None => unsigned_number(s@, u64::MAX as int) is None,
        },
{
    let t: Vec<char> = chars_of(s);
    let start: usize = if t.len() > 0 && t[0] == '+' {
        1
    } else {
        0
    };
    let digits: &[char] = slice_subrange(t.as_slice(), start, t.len());
    proof {
        assert(start == 0 ==> digits@ =~= s@);
        assert(start == 1 ==> digits@ =~= s@.skip(1));
    }
    match parse_digits(digits, u64::MAX as u128) {
        Some(n) => Some(n as u64),
        None => None,
    }
}

/// Reads `s` as a signed number between `-max - 1` and `max`.
fn parse_signed(s: &str, max: i64) -> (r: Option<i64>)
    requires
        max >= 0,
    ensures
        match r {
            Some(n) => signed_number(s@, max as int) == Some(n as int),
            None => signed_number(s@, max as int) is None,
        },
{
    let t: Vec<char> = chars_of(s);
    let negative: bool = t.len() > 0 && t[0] == '-';
    let start: usize = if negative || (t.len() > 0 && t[0] == '+') {
        1
    } else {
        0
    };
    let digits: &[char] = slice_subrange(t.as_slice(), start, t.len());
    proof {
        assert(start == 0 ==> digits@ =~= s@);
        assert(start == 1 ==> digits@ =~= s@.skip(1));
    }
    let limit: u128 = if negative {
        max as u128 + 1
    } else {
        max as u128
    };
    match parse_digits(digits, limit) {
        Some(n) => if negative {
            Some((0 - n as i128) as i64)
        } else {
            Some(n as i64)
        },
        None => None,
    }
}

/// Reads `s` as a signed 64-bit number.
pub fn parse_i64(s: &str) -> (r: Option<i64>)
    ensures
        match r {
            Some(n) => signed_number(s@, i64::MAX as int) == Some(n as int),
            None => signed_number(s@, i64::MAX as int) is None,
        },
{
    parse_signed(s, i64::MAX)
}

/// Reads `s` as a signed 32-bit number.
pub fn parse_i32(s: &str) -> (r: Option<i32>)
    ensures
        match r {
            Some(n) => signed_number(s@, i32::MAX as int) == Some(n as int),
            None => signed_number(s@, i32::MAX as int) is None,
        },
{
    proof {
        lemma_signed_number_range(s@, i32::MAX as int);
    }
    match parse_signed(s, i32::MAX as i64) {
        Some(n) => Some(n as i32),
        None => None,
    }
}

proof fn lemma_signed_number_range(s: Seq<char>, max: int)
    requires
        max >= 0,
    ensures
        signed_number(s, max) matches Some(n) ==> -max - 1 <= n <= max,
{
    if s.len() > 0 && all_digits(s.skip(1)) {
        lemma_digits_value_nonnegative(s.skip(1));
    }
    if all_digits(s) {
        lemma_digits_value_nonnegative(s);
    }
}

/// The character of a decimal digit.
pub open spec fn digit_char(d: int) -> char {
    ('0' as int + d) as char
}

/// `n` in decimal notation, without leading zeros.
pub open spec fn decimal(n: nat) -> Seq<char>
    decreases n,
{
    if n < 10 {
        seq![digit_char(n as int)]
    } else {
        decimal(n / 10).push(digit_char((n % 10) as int))
    }
}

/// `n` in decimal notation, with a minus sign where it is negative.
pub open spec fn signed_decimal(n: int) -> Seq<char> {
    if n < 0 {
        seq!['-'] + decimal((-n) as nat)
    } else {
        decimal(n as nat)
    }
}

/// The decimal notation of a number is made of digits, and reads back as that number.
pub proof fn lemma_decimal_reads_back(n: nat)
    ensures
        decimal(n).len() > 0,
        all_digits(decimal(n)),
        digits_value(decimal(n)) == n,
    decreases n,
{
    if n >= 10 {
        lemma_decimal_reads_back(n / 10);
        assert(decimal(n).drop_last() =~= decimal(n / 10));
    } else {
        assert(decimal(n).drop_last() =~= Seq::<char>::empty());
        assert(digits_value(Seq::empty()) == 0);
    }
}

/// A run of digits has no white space at its ends.
pub proof fn lemma_digits_are_trimmed(s: Seq<char>)
    requires
        all_digits(s),
    ensures
        trimmed(s) == s,
{
    if s.len() > 0 {
        assert(is_digit(s[0]));
        assert(is_digit(s[s.len() - 1]));
    }
}

fn digit_text(d: u64) -> (r: &'static str)
    requires
        d < 10,
    ensures
        r@ == seq![digit_char(d as int)],
{
    proof {
        reveal_strlit("0");
        reveal_strlit("1");
        reveal_strlit("2");
        reveal_strlit("3");
        reveal_strlit("4");
        reveal_strlit("5");
        reveal_strlit("6");
        reveal_strlit("7");
        reveal_strlit("8");
        reveal_strlit("9");
    }
    match d {
        0 => "0",
        1 => "1",
        2 => "2",
        3 => "3",
        4 => "4",
        5 => "5",
        6 => "6",
        7 => "7",
        8 => "8",
        _ => "9",
    }
}

/// Writes `n` in decimal notation.
pub fn decimal_text(n: u64) -> (r: String)
    ensures
        r@ == decimal(n as nat),
    decreases n,
{
    if n < 10 {
        digit_text(n).to_string()
    } else {
        let mut text: String = decimal_text(n / 10);
        text.append(digit_text(n % 10));
        assert(text@ =~= decimal((n / 10) as nat).push(digit_char((n % 10) as int)));
        text
    }
}

/// Writes `n` in decimal notation, with a minus sign where it is negative.
pub fn signed_decimal_text(n: i64) -> (r: String)
    ensures
        r@ == signed_decimal(n as int),
{
    if n < 0 {
        proof {
            reveal_strlit("-");
        }
        let magnitude: u64 = (0 - n as i128) as u64;
        let mut text: String = "-".to_string();
        text.append(decimal_text(magnitude).as_str());
        assert("-"@ =~= seq!['-']);
        text
    } else {
        decimal_text(n as u64)
    }
}

/// One text after another.
pub fn concat2(first: &str, second: &str) -> (r: String)
    ensures
        r@ == first@ + second@,
{
    let mut text: String = first.to_string();
    text.append(second);
    text
}

/// Three texts one after another.
pub fn concat3(first: &str, second: &str, third: &str) -> (r: String)
    ensures
        r@ == first@ + second@ + third@,
{
    let mut text: String = concat2(first, second);
    text.append(third);
    text
}

/// The texts of `parts`, in order, with `between` between each two.
pub open spec fn joined(parts: Seq<Seq<char>>, between: Seq<char>) -> Seq<char>
    decreases parts.len(),
{
    if parts.len() == 0 {
        Seq::empty()
    } else if parts.len() == 1 {
        parts[0]
    } else {
        joined(parts.drop_last(), between) + between + parts.last()
    }
}

/// The characters of each text of a list.
pub open spec fn views(parts: Seq<String>) -> Seq<Seq<char>> {
    parts.map_values(|part: String| part@)
}

/// The characters of each text of a list of literals.
pub open spec fn str_views(parts: Seq<&str>) -> Seq<Seq<char>> {
    parts.map_values(|part: &str| part@)
}

/// The texts of a list, each on its own.
pub fn texts(parts: &[&str]) -> (r: Vec<String>)
    ensures
        views(r@) == str_views(parts@),
{
    let mut out: Vec<String> = Vec::new();
    let mut i: usize = 0;
    while i < parts.len()
        invariant
            i <= parts@.len(),
            views(out@) == str_views(parts@).take(i as int),
        decreases parts@.len() - i,
    {
        let ghost before = views(out@);
        let part: String = parts[i].to_string();
        out.push(part);
        assert(views(out@) =~= before.push(part@));
        assert(str_views(parts@).take(i + 1) =~= before.push(parts@[i as int]@));
        i += 1;
    }
    assert(str_views(parts@).take(i as int) =~= str_views(parts@));
    out
}

/// Joins texts, with `between` between each two.
pub fn join(parts: &[String], between: &str) -> (r: String)
    ensures
        r@ == joined(views(parts@), between@),
{
    let mut text: String = String::new();
    let mut i: usize = 0;
    while i < parts.len()
        invariant
            i <= parts@.len(),
            text@ == joined(views(parts@).take(i as int), between@),
        decreases parts@.len() - i,
    {
        if i > 0 {
            text.append(between);
        }
        text.append(parts[i].as_str());
        proof {
            let next = views(parts@).take(i + 1);
            assert(next.drop_last() =~= views(parts@).take(i as int));
            assert(text@ =~= joined(next, between@));
        }
        i += 1;
    }
    assert(views(parts@).take(i as int) =~= views(parts@));
    text
}

/// The decimal notation of a number, with its sign, reads back as that number.
pub proof fn law_signed_decimal_reads_back(n: int, max: int)
    requires
        -max - 1 <= n <= max,
    ensures
        signed_number(signed_decimal(n), max) == Some(n),
        n >= 0 ==> unsigned_number(signed_decimal(n), max) == Some(n),
{
    if n < 0 {
        lemma_decimal_reads_back((-n) as nat);
        assert(signed_decimal(n).skip(1) =~= decimal((-n) as nat));
    } else {
        lemma_decimal_reads_back(n as nat);
        assert(is_digit(decimal(n as nat)[0]));
    }
}

/// A decimal notation does not begin with a zero, except that of zero itself.
pub proof fn law_decimal_has_no_leading_zero(n: nat)
    ensures
        n > 0 ==> decimal(n).first() != '0',
        n < 10 ==> decimal(n).len() == 1,
    decreases n,
{
    if n >= 10 {
        law_decimal_has_no_leading_zero(n / 10);
        lemma_decimal_reads_back(n / 10);
        assert(decimal(n).first() == decimal(n / 10).first());
    }
}

/// A number is read by its digits: another digit at the end makes it ten times as large and adds
/// the digit.
pub proof fn law_digits_are_read_in_tens(s: Seq<char>, digit: char)
    ensures
        digits_value(s.push(digit)) == 10 * digits_value(s) + (digit as int - 48),
        digits_value(Seq::<char>::empty()) == 0,
{
    assert(s.push(digit).drop_last() =~= s);
}

/// A text is read as a number exactly where it is a run of digits, perhaps after a plus sign, and
/// the number is no more than `max`; a signed one may have a minus sign.
pub proof fn law_numbers_are_digits(digits: Seq<char>, max: int)
    requires
        digits.len() > 0,
    ensures
        ({
            let valid = forall|i: int| 0 <= i < digits.len() ==> '0' <= #[trigger] digits[i] <= '9';
            let value = digits_value(digits);
            &&& digits.first() != '+' ==> unsigned_number(digits, max) == (if valid && value
                <= max {
                Some(value)
            } else {
                None
            })
            &&& valid ==> unsigned_number(seq!['+'] + digits, max) == (if value <= max {
                Some(value)
            } else {
                None
            })
            &&& valid ==> signed_number(seq!['-'] + digits, max) == (if value <= max + 1 {
                Some(-value)
            } else {
                None
            })
            &&& !valid ==> unsigned_number(seq!['+'] + digits, max) is None
            &&& !valid ==> signed_number(seq!['-'] + digits, max) is None
            &&& digits.first() != '-' ==> signed_number(digits, max) == unsigned_number(digits, max)
        }),
        unsigned_number(Seq::empty(), max) is None,
        unsigned_number(seq!['+'], max) is None,
        signed_number(seq!['-'], max) is None,
{
    assert((seq!['+'] + digits).skip(1) =~= digits);
    assert((seq!['-'] + digits).skip(1) =~= digits);
    let valid = forall|i: int| 0 <= i < digits.len() ==> '0' <= #[trigger] digits[i] <= '9';
    if valid {
        assert('0' <= digits[0] <= '9');
        assert forall|i: int| 0 <= i < digits.len() implies is_digit(#[trigger] digits[i]) by {}
    } else {
        let i = choose|i: int| 0 <= i < digits.len() && !('0' <= #[trigger] digits[i] <= '9');
        assert(!is_digit(digits[i]));
    }
    assert(seq!['+'].skip(1) =~= Seq::empty());
    assert(seq!['-'].skip(1) =~= Seq::empty());
}

/// Trimming takes away white space at the two ends, all of it, and nothing else.
pub proof fn law_trimming_takes_the_ends(s: Seq<char>) -> (r: (int, int))
    ensures
        0 <= r.0 <= r.1 <= s.len(),
        trimmed(s) == s.subrange(r.0, r.1),
        forall|i: int| 0 <= i < r.0 ==> white_space(#[trigger] s[i]),
        forall|i: int| r.1 <= i < s.len() ==> white_space(#[trigger] s[i]),
        trimmed(s).len() > 0 ==> !white_space(trimmed(s).first()) && !white_space(trimmed(s).last()),
    decreases s.len(),
{
    if s.len() > 0 && white_space(s.first()) {
        let (lo, hi) = law_trimming_takes_the_ends(s.skip(1));
        assert(s.skip(1).subrange(lo, hi) =~= s.subrange(lo + 1, hi + 1));
        assert forall|i: int| 0 <= i < lo + 1 implies white_space(#[trigger] s[i]) by {
            if i > 0 {
                assert(white_space(s.skip(1)[i - 1]));
            }
        }
        assert forall|i: int| hi + 1 <= i < s.len() implies white_space(#[trigger] s[i]) by {
            assert(white_space(s.skip(1)[i - 1]));
        }
        (lo + 1, hi + 1)
    } else if s.len() > 0 && white_space(s.last()) {
        let (lo, hi) = law_trimming_takes_the_ends(s.drop_last());
        assert(s.drop_last().subrange(lo, hi) =~= s.subrange(lo, hi));
        assert forall|i: int| 0 <= i < lo implies white_space(#[trigger] s[i]) by {
            assert(white_space(s.drop_last()[i]));
        }
        assert forall|i: int| hi <= i < s.len() implies white_space(#[trigger] s[i]) by {
            if i < s.len() - 1 {
                assert(white_space(s.drop_last()[i]));
            }
        }
        (lo, hi)
    } else {
        assert(s.subrange(0, s.len() as int) =~= s);
        (0, s.len() as int)
    }
}

/// Blanks, tabs and line ends are white space; letters, digits and punctuation are not.
pub proof fn law_printed_characters_are_not_white_space(c: char)
    ensures
        c == ' ' || c == '\t' || c == '\n' || c == '\r' ==> white_space(c),
        '!' <= c <= '~' ==> !white_space(c),
{
}

/// What stands before the first line feed is a line of its own, without a carriage return at its
/// end; what stands after it is read in the same way.
pub proof fn law_lines_end_at_line_feeds(line: Seq<char>, rest: Seq<char>)
    requires
        forall|i: int| 0 <= i < line.len() ==> #[trigger] line[i] != '\n',
    ensures
        lines_of(line + seq!['\n'] + rest) == seq![
            if line.len() > 0 && line.last() == '\r' {
                line.drop_last()
            } else {
                line
            },
        ] + lines_of(rest),
        lines_of(line) == (if line.len() == 0 {
            Seq::<Seq<char>>::empty()
        } else {
            seq![line]
        }),
{
    let s = line + seq!['\n'] + rest;
    assert(s[line.len() as int] == '\n');
    assert forall|k: int| 0 <= k < line.len() implies s[k] != '\n' by {
        assert(s[k] == line[k]);
    }
    lemma_line_end_unique(s, line.len() as int);
    assert(s.take(line.len() as int) =~= line);
    assert(s.skip((line.len() + 1) as int) =~= rest);
    lemma_line_end_unique(line, line.len() as int);
}

/// Letters match whatever their case, and other characters only as they are.
pub proof fn law_case_is_that_of_letters(a: char, b: char)
    ensures
        ascii_lower(a) == ascii_lower(b) <==> a == b || ('A' <= a <= 'Z' && b as int == a as int
            + 32) || ('A' <= b <= 'Z' && a as int == b as int + 32),
{
}

/// Two texts match whatever the case of their letters exactly where they do so character by
/// character.
pub proof fn law_case_is_ignored_throughout(a: Seq<char>, b: Seq<char>)
    ensures
        same_but_for_ascii_case(a, b) <==> a.len() == b.len() && forall|i: int|
            0 <= i < a.len() ==> ascii_lower(#[trigger] a[i]) == ascii_lower(b[i]),
{
    let la = a.map_values(|c: char| ascii_lower(c));
    let lb = b.map_values(|c: char| ascii_lower(c));
    if same_but_for_ascii_case(a, b) {
        assert(la.len() == lb.len());
        assert forall|i: int| 0 <= i < a.len() implies ascii_lower(#[trigger] a[i]) == ascii_lower(
            b[i],
        ) by {
            assert(la[i] == lb[i]);
        }
    } else if a.len() == b.len() && forall|i: int|
        0 <= i < a.len() ==> ascii_lower(#[trigger] a[i]) == ascii_lower(b[i]) {
        assert(la =~= lb);
    }
}

/// Joined texts stand in their order, with what joins them between each two and nowhere else.
pub proof fn law_joined_texts_keep_their_order(
    parts: Seq<Seq<char>>,
    last: Seq<char>,
    between: Seq<char>,
)
    ensures
        joined(Seq::empty(), between) == Seq::<char>::empty(),
        joined(seq![last], between) == last,
        parts.len() > 0 ==> joined(parts.push(last), between) == joined(parts, between) + between
            + last,
{
    assert(parts.push(last).drop_last() =~= parts);
}

/// A text contains another exactly where it is made of something, that text, and something.
pub proof fn law_contained_text_stands_somewhere(
    before: Seq<char>,
    needle: Seq<char>,
    after: Seq<char>,
)
    ensures
        contains_text(before + needle + after, needle),
        matches_at(needle + after, needle, 0),
        matches_at(before + needle, needle, before.len() as int),
        after.len() < needle.len() ==> !contains_text(after, needle),
{
    assert((before + needle + after).subrange(
        before.len() as int,
        (before.len() + needle.len()) as int,
    ) =~= needle);
    assert(matches_at(before + needle + after, needle, before.len() as int));
    assert((needle + after).subrange(0, needle.len() as int) =~= needle);
    assert((before + needle).subrange(
        before.len() as int,
        (before.len() + needle.len()) as int,
    ) =~= needle);
}

/// White space is what Unicode calls so: the controls from tabulator to carriage return, the next
/// line, the space, the one without a break, those of Ogham and of the ideographs, those of the
/// general punctuation, and the separators of lines and paragraphs.
pub proof fn law_white_space_is_that_of_unicode(c: char)
    ensures
        white_space(c) <==> {
            let code = c as int;
            ||| 0x9 <= code <= 0xd
            ||| code == 0x20
            ||| code == 0x85
            ||| code == 0xa0
            ||| code == 0x1680
            ||| 0x2000 <= code <= 0x200a
            ||| 0x2028 <= code <= 0x2029
            ||| code == 0x202f
            ||| code == 0x205f
            ||| code == 0x3000
        },
{
}

/// Trimming takes all white space from both ends of a text and nothing else, and trimming the
/// result changes nothing.
pub proof fn law_trimming_again_changes_nothing(s: &str, once: &str, twice: &str)
    requires
        call_ensures(trim, (s,), once),
        call_ensures(trim, (once,), twice),
    ensures
        twice@ == once@,
        once@.len() > 0 ==> !white_space(once@.first()) && !white_space(once@.last()),
        exists|lo: int, hi: int|
            0 <= lo <= hi <= s@.len() && once@ == #[trigger] s@.subrange(lo, hi) && (forall|i: int|
                0 <= i < s@.len() && (i < lo || hi <= i) ==> white_space(#[trigger] s@[i])),
{
    let (lo, hi) = law_trimming_takes_the_ends(s@);
    assert(once@ == s@.subrange(lo, hi));
}

/// A trimmed text is given exactly where there is one and something of it is left.
pub proof fn law_empty_text_counts_as_none(s: &str, t: &str, r: Option<String>, none: Option<String>)
    requires
        call_ensures(trim, (s,), t),
        call_ensures(nonempty_trimmed, (Some(s),), r),
        call_ensures(nonempty_trimmed, (None::<&str>,), none),
    ensures
        none is None,
        r is None <==> t@.len() == 0,
        r matches Some(kept) ==> kept@ == t@,
{
}

/// A text begins with another exactly where its first characters are the other's, ends with it
/// exactly where its last ones are, and holds it in either case.
pub proof fn law_beginning_and_end_are_held(
    s: &str,
    part: &str,
    begins: bool,
    ends: bool,
    holds: bool,
    equal: bool,
)
    requires
        call_ensures(starts_with, (s, part), begins),
        call_ensures(ends_with, (s, part), ends),
        call_ensures(contains, (s, part), holds),
        call_ensures(same, (s, part), equal),
    ensures
        begins <==> exists|rest: Seq<char>| s@ == #[trigger] (part@ + rest),
        ends <==> exists|rest: Seq<char>| s@ == #[trigger] (rest + part@),
        begins || ends ==> holds,
        equal <==> begins && ends && s@.len() == part@.len(),
        holds ==> part@.len() <= s@.len(),
{
    let n = part@.len() as int;
    let m = s@.len() as int;
    if begins {
        assert(s@ =~= part@ + s@.skip(n));
        assert(matches_at(s@, part@, 0));
    }
    if exists|rest: Seq<char>| s@ == #[trigger] (part@ + rest) {
        let rest = choose|rest: Seq<char>| s@ == #[trigger] (part@ + rest);
        assert(s@.subrange(0, n) =~= part@);
    }
    if ends {
        assert(s@ =~= s@.take(m - n) + part@);
        assert(matches_at(s@, part@, m - n));
    }
    if exists|rest: Seq<char>| s@ == #[trigger] (rest + part@) {
        let rest = choose|rest: Seq<char>| s@ == #[trigger] (rest + part@);
        assert(s@.subrange(m - n, m) =~= part@);
    }
    if begins && n == m {
        assert(s@.subrange(0, n) =~= s@);
    }
    if equal {
        assert(s@.subrange(0, n) =~= s@);
    }
}

/// A text is found at its leftmost place: there its characters stand, and it is found wherever
/// they stand at all.
pub proof fn law_text_is_found_at_its_leftmost_place(
    hay: &[char],
    needle: &[char],
    r: Option<usize>,
    before: Seq<char>,
    after: Seq<char>,
)
    requires
        call_ensures(find_text, (hay, needle), r),
    ensures
        hay@ == before + needle@ + after ==> r is Some && r->0 <= before.len(),
        r matches Some(at) ==> at + needle@.len() <= hay@.len() && hay@.subrange(
            at as int,
            at + needle@.len(),
        ) == needle@,
{
    if hay@ == before + needle@ + after {
        assert(hay@.subrange(before.len() as int, (before.len() + needle@.len()) as int)
            =~= needle@);
        assert(matches_at(hay@, needle@, before.len() as int));
    }
}

/// What is written as a number is read as the same number.
pub proof fn law_written_numbers_are_read_back(
    n: u64,
    text: &str,
    r: Option<u64>,
    i: i64,
    signed: &str,
    s: Option<i64>,
    written: String,
    written_signed: String,
)
    requires
        call_ensures(decimal_text, (n,), written),
        text@ == written@,
        call_ensures(parse_u64, (text,), r),
        call_ensures(signed_decimal_text, (i,), written_signed),
        signed@ == written_signed@,
        call_ensures(parse_i64, (signed,), s),
    ensures
        r == Some(n),
        s == Some(i),
{
    law_signed_decimal_reads_back(i as int, i64::MAX as int);
    law_signed_decimal_reads_back(n as int, u64::MAX as int);
}

/// A number of 32 bits is read as one of 64 bits is, as far as it fits.
pub proof fn law_small_numbers_are_read_alike(text: &str, small: Option<i32>, large: Option<i64>)
    requires
        call_ensures(parse_i32, (text,), small),
        call_ensures(parse_i64, (text,), large),
    ensures
        small matches Some(n) ==> large == Some(n as i64),
        large matches Some(n) ==> (i32::MIN <= n <= i32::MAX ==> small == Some(n as i32)),
{
}

/// Bytes that encode a text are read as that text.
pub proof fn law_valid_bytes_are_read_as_they_stand(bytes: Seq<u8>)
    requires
        valid_utf8(bytes),
    ensures
        lossy(bytes) == decode_utf8(bytes),
{
}

/// Texts that are put together stand one after the other, and a list keeps its texts.
pub proof fn law_texts_are_put_together_as_they_stand(
    first: &str,
    second: &str,
    third: &str,
    two: String,
    three: String,
    parts: &[&str],
    list: Vec<String>,
    i: int,
)
    requires
        call_ensures(concat2, (first, second), two),
        call_ensures(concat3, (first, second, third), three),
        call_ensures(texts, (parts,), list),
    ensures
        two@ == first@ + second@,
        three@ == two@ + third@,
        list@.len() == parts@.len(),
        0 <= i < parts@.len() ==> list@[i]@ == parts@[i]@,
{
    assert(views(list@).len() == str_views(parts@).len());
    if 0 <= i < parts@.len() {
        assert(views(list@)[i] == str_views(parts@)[i]);
    }
}

/// Two runs of characters that are the same match whatever their case, and only those of one
/// length do.
pub proof fn law_same_characters_match(a: &[char], b: &[char], equal: bool, alike: bool)
    requires
        call_ensures(same_chars, (a, b), equal),
        call_ensures(eq_ignore_ascii_case, (a, b), alike),
    ensures
        equal <==> a@.len() == b@.len() && forall|i: int|
            0 <= i < a@.len() ==> #[trigger] a@[i] == b@[i],
        equal ==> alike,
        alike <==> a@.len() == b@.len() && forall|i: int|
            0 <= i < a@.len() ==> ascii_lower(#[trigger] a@[i]) == ascii_lower(b@[i]),
{
    law_case_is_ignored_throughout(a@, b@);
    if a@.len() == b@.len() && forall|i: int| 0 <= i < a@.len() ==> #[trigger] a@[i] == b@[i] {
        assert(a@ =~= b@);
    }
}

/// A text has the characters it is written with, and is trimmed alike as a text and as a run of
/// characters.
pub proof fn law_characters_are_trimmed_as_texts(
    s: &str,
    chars: Vec<char>,
    run: &[char],
    cut: &[char],
    t: &str,
)
    requires
        call_ensures(chars_of, (s,), chars),
        run@ == chars@,
        call_ensures(trim_chars, (run,), cut),
        call_ensures(trim, (s,), t),
    ensures
        chars@ == s@,
        cut@ == t@,
{
}

}
