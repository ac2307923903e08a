//! Small verified text utilities: decimal formatting of integers, decimal
//! parsing, substring search, ASCII case folding, and lookup in association
//! lists. Store keys and the field parsers are built on these.

use vstd::prelude::*;
use vstd::string::StrSliceExecFns;
use vstd::string::StringExecFns;

verus! {

/// The decimal digit character for a value in 0..=9.
pub open spec fn dec_digit_char(d: int) -> char {
    if d == 0 {
        '0'
    } else if d == 1 {
        '1'
    } else if d == 2 {
        '2'
    } else if d == 3 {
        '3'
    } else if d == 4 {
        '4'
    } else if d == 5 {
        '5'
    } else if d == 6 {
        '6'
    } else if d == 7 {
        '7'
    } else if d == 8 {
        '8'
    } else {
        '9'
    }
}

/// The decimal representation of a nonnegative integer, most significant
/// digit first, without sign or leading zeros (but "0" for zero).
pub open spec fn spec_dec_nat(n: nat) -> Seq<char>
    decreases n,
{
    if n < 10 {
        seq![dec_digit_char(n as int)]
    } else {
        spec_dec_nat(n / 10).push(dec_digit_char((n % 10) as int))
    }
}

/// The decimal representation of a signed integer: a minus sign for negative
/// values, then the digits of the absolute value.
pub open spec fn spec_dec_i64(n: i64) -> Seq<char> {
    if n >= 0 {
        spec_dec_nat(n as nat)
    } else {
        seq!['-'] + spec_dec_nat((-(n as int)) as nat)
    }
}

/// Appends the decimal representation of `n` to `s`.
pub fn append_u64(s: &mut String, n: u64)
    ensures
        final(s)@ == old(s)@ + spec_dec_nat(n as nat),
    decreases n,
{
    let ghost prefix: Seq<char> = s@;
    if n >= 10 {
        append_u64(s, n / 10);
    }
    let d = n % 10;
    let ds: &str = if d == 0 {
        "0"
    } else if d == 1 {
        "1"
    } else if d == 2 {
        "2"
    } else if d == 3 {
        "3"
    } else if d == 4 {
        "4"
    } else if d == 5 {
        "5"
    } else if d == 6 {
        "6"
    } else if d == 7 {
        "7"
    } else if d == 8 {
        "8"
    } else {
        "9"
    };
    proof {
        reveal_strlit("0");
        reveal_strlit("1");
        reveal_strlit("2");
        reveal_strlit("3");
        reveal_strlit("4");
        reveal_strlit("5");
        reveal_strlit("6");
        reveal_strlit("7");
        reveal_strlit("8");
        reveal_strlit("9");
        assert(ds@ =~= seq![dec_digit_char(d as int)]);
    }
    s.append(ds);
    proof {
        assert(s@ =~= prefix + spec_dec_nat(n as nat));
    }
}

/// The decimal representation of `n` as a fresh string.
pub fn u64_to_string(n: u64) -> (r: String)
    ensures
        r@ == spec_dec_nat(n as nat),
{
    let mut s = String::new();
    append_u64(&mut s, n);
    proof {
        assert(s@ =~= spec_dec_nat(n as nat));
    }
    s
}

/// Appends the decimal representation of a signed integer to `s`.
pub fn append_i64(s: &mut String, n: i64)
    ensures
        final(s)@ == old(s)@ + spec_dec_i64(n),
{
    let ghost prefix: Seq<char> = s@;
    if n >= 0 {
        append_u64(s, n as u64);
    } else {
        proof {
            reveal_strlit("-");
        }
        s.append("-");
        let m: u64 = ((-(n + 1)) as u64) + 1;
        assert(m as int == -(n as int));
        append_u64(s, m);
        proof {
            assert("-"@ =~= seq!['-']);
            assert(s@ =~= prefix + spec_dec_i64(n));
        }
    }
}

/// Whether `c` is a decimal digit.
pub open spec fn is_dec_digit(c: char) -> bool {
    48 <= c as u32 <= 57
}

/// The value of a sequence of decimal digits, most significant first.
pub open spec fn digits_value(s: Seq<char>) -> int
    decreases s.len(),
{
    if s.len() == 0 {
        0
    } else {
        digits_value(s.drop_last()) * 10 + (s.last() as u32 - 48)
    }
}

/// A digit string's value is nonnegative, and no prefix has a larger value.
proof fn lemma_digits_prefix_le(s: Seq<char>, k: int)
    requires
        0 <= k <= s.len(),
        forall|i: int| 0 <= i < s.len() ==> is_dec_digit(#[trigger] s[i]),
    ensures
        0 <= digits_value(s.subrange(0, k)) <= digits_value(s),
    decreases s.len() - k,
{
    if k == s.len() {
        assert(s.subrange(0, k) =~= s);
        lemma_digits_nonneg(s);
    } else {
        lemma_digits_prefix_le(s, k + 1);
        let p = s.subrange(0, k);
        let q = s.subrange(0, k + 1);
        assert(q.drop_last() =~= p);
        lemma_digits_nonneg(p);
        assert(digits_value(q) == digits_value(p) * 10 + (q.last() as u32 - 48));
        assert(digits_value(p) * 10 >= digits_value(p)) by (nonlinear_arith)
            requires
                digits_value(p) >= 0,
        ;
    }
}

/// A digit string's value is nonnegative.
proof fn lemma_digits_nonneg(s: Seq<char>)
    requires
        forall|i: int| 0 <= i < s.len() ==> is_dec_digit(#[trigger] s[i]),
    ensures
        digits_value(s) >= 0,
    decreases s.len(),
{
    if s.len() > 0 {
        assert(forall|i: int|
            0 <= i < s.drop_last().len() ==> is_dec_digit(#[trigger] s.drop_last()[i]));
        lemma_digits_nonneg(s.drop_last());
        assert(digits_value(s.drop_last()) * 10 >= 0) by (nonlinear_arith)
            requires
                digits_value(s.drop_last()) >= 0,
        ;
    }
}

/// The digits of a decimal number, after an optional leading plus sign.
pub open spec fn spec_parse_body(s: Seq<char>) -> Seq<char> {
    if s.len() > 0 && s[0] == '+' {
        s.subrange(1, s.len() as int)
    } else {
        s
    }
}

/// What parsing an unsigned decimal number from text yields: the value of
/// the digits (after an optional leading plus sign), or nothing if the text
/// is empty, holds a non-digit, or encodes a value above `u64::MAX`.
pub open spec fn spec_parse_u64(s: Seq<char>) -> Option<u64> {
    let body = spec_parse_body(s);
    if body.len() > 0 && (forall|i: int| 0 <= i < body.len() ==> is_dec_digit(#[trigger] body[i]))
        && digits_value(body) <= u64::MAX {
        Some(digits_value(body) as u64)
    } else {
        None
    }
}

/// Parses an unsigned decimal number, with an optional leading plus sign.
pub fn parse_u64(s: &str) -> (r: Option<u64>)
    ensures
        r == spec_parse_u64(s@),
{
    let len = s.unicode_len();
    let start: usize = if len > 0 && s.get_char(0) == '+' {
        1
    } else {
        0
    };
    let ghost body = spec_parse_body(s@);
    proof {
        assert(body =~= s@.subrange(start as int, len as int));
    }
    if start == len {
        return None;
    }
    let mut acc: u64 = 0;
    let mut i: usize = start;
    while i < len
        invariant
            start <= i <= len,
            len == s@.len(),
            start == 0 || start == 1,
            start == 1 ==> s@[0] == '+',
            start == 0 ==> (s@.len() == 0 || s@[0] != '+'),
            body == s@.subrange(start as int, len as int),
            forall|j: int| start <= j < i ==> is_dec_digit(#[trigger] s@[j]),
            acc == digits_value(s@.subrange(start as int, i as int)),
        decreases len - i,
    {
        let c = s.get_char(i);
        let code = c as u32;
        if code < 48 || code > 57 {
            proof {
                assert(body =~= spec_parse_body(s@));
                let j = i - start;
                assert(0 <= j < body.len());
                assert(body[j] == s@[i as int]);
                assert(!is_dec_digit(body[j]));
                assert(!(forall|k: int| 0 <= k < body.len() ==> is_dec_digit(#[trigger] body[k])));
            }
            return None;
        }
        let d = (code - 48) as u64;
        let ghost q = s@.subrange(start as int, i + 1);
        proof {
            assert(q.drop_last() =~= s@.subrange(start as int, i as int));
            assert(q.last() == s@[i as int]);
        }
        let next = match acc.checked_mul(10) {
            Some(t) => t.checked_add(d),
            None => None,
        };
        match next {
            Some(v) => {
                acc = v;
            },
            None => {
                proof {
                    assert(body =~= spec_parse_body(s@));
                    assert(digits_value(q) > u64::MAX);
                    assert(forall|j: int| 0 <= j < body.len() ==> body[j] == s@[start + j]);
                    if forall|j: int| 0 <= j < body.len() ==> is_dec_digit(#[trigger] body[j]) {
                        lemma_digits_prefix_le(body, i + 1 - start);
                        assert(body.subrange(0, i + 1 - start) =~= q);
                        assert(digits_value(body) > u64::MAX);
                    }
                }
                return None;
            },
        }
        i = i + 1;
    }
    proof {
        assert(body =~= s@.subrange(start as int, len as int));
        assert(forall|j: int| 0 <= j < body.len() ==> body[j] == s@[start + j]);
        assert(body.len() > 0);
        lemma_digits_nonneg(body);
    }
    Some(acc)
}

/// Parses an unsigned decimal number that must fit in `u32`.
pub fn parse_u32(s: &str) -> (r: Option<u32>)
    ensures
        r == match spec_parse_u64(s@) {
            Some(v) => if v <= u32::MAX {
                Some(v as u32)
            } else {
                None::<u32>
            },
            None => None::<u32>,
        },
{
    match parse_u64(s) {
        Some(v) => if v <= u32::MAX as u64 {
            Some(v as u32)
        } else {
            None
        },
        None => None,
    }
}

/// Parses an unsigned decimal number that must fit in `u16`.
pub fn parse_u16(s: &str) -> (r: Option<u16>)
    ensures
        r == match spec_parse_u64(s@) {
            Some(v) => if v <= u16::MAX {
                Some(v as u16)
            } else {
                None::<u16>
            },
            None => None::<u16>,
        },
{
    match parse_u64(s) {
        Some(v) => if v <= u16::MAX as u64 {
            Some(v as u16)
        } else {
            None
        },
        None => None,
    }
}

/// Whether the needle occurs in the haystack starting at position `i`.
pub open spec fn matches_at(h: Seq<char>, n: Seq<char>, i: int) -> bool {
    0 <= i && i + n.len() <= h.len() && h.subrange(i, i + n.len()) == n
}

/// Whether the needle occurs anywhere in the haystack.
pub open spec fn spec_contains(h: Seq<char>, n: Seq<char>) -> bool {
    exists|i: int| matches_at(h, n, i)
}

/// Whether the needle occurs in the haystack at or after position `from`,
/// comparing character by character.
fn contains_from(h: &str, n: &str, hl: usize, nl: usize) -> (r: bool)
    requires
        hl == h@.len(),
        nl == n@.len(),
    ensures
        r == spec_contains(h@, n@),
{
    if nl > hl {
        proof {
            assert(forall|i: int| !matches_at(h@, n@, i));
        }
        return false;
    }
    if nl == 0 {
        proof {
            assert(h@.subrange(0, 0) =~= n@);
            assert(matches_at(h@, n@, 0));
        }
        return true;
    }
    let mut i: usize = 0;
    while i <= hl - nl
        invariant
            0 <= i <= hl - nl + 1,
            1 <= nl <= hl,
            hl == h@.len(),
            nl == n@.len(),
            forall|ii: int| 0 <= ii < i ==> !matches_at(h@, n@, ii),
        decreases hl - nl + 1 - i,
    {
        let mut j: usize = 0;
        let mut matched = true;
        while j < nl
            invariant
                0 <= j <= nl,
                0 <= i <= hl - nl,
                hl == h@.len(),
                nl == n@.len(),
                matched ==> forall|k: int| 0 <= k < j ==> h@[i + k] == n@[k],
                !matched ==> !matches_at(h@, n@, i as int),
            decreases nl - j,
        {
            if matched {
                let hc = h.get_char(i + j);
                let nc = n.get_char(j);
                if hc != nc {
                    proof {
                        if matches_at(h@, n@, i as int) {
                            assert(h@.subrange(i as int, i + nl)[j as int] == n@[j as int]);
                        }
                    }
                    matched = false;
                }
            }
            j = j + 1;
        }
        if matched {
            proof {
                assert(h@.subrange(i as int, i + nl) =~= n@);
                assert(matches_at(h@, n@, i as int));
            }
            return true;
        }
        i = i + 1;
    }
    proof {
        assert(forall|ii: int| ii > hl - nl ==> !matches_at(h@, n@, ii));
    }
    false
}

/// Whether the needle occurs anywhere in the haystack.
pub fn str_contains(h: &str, n: &str) -> (r: bool)
    ensures
        r == spec_contains(h@, n@),
{
    let hl = h.unicode_len();
    let nl = n.unicode_len();
    contains_from(h, n, hl, nl)
}

/// Whether the haystack starts with the prefix.
pub open spec fn spec_starts_with(h: Seq<char>, p: Seq<char>) -> bool {
    matches_at(h, p, 0)
}

/// Whether the haystack starts with the prefix.
pub fn str_starts_with(h: &str, p: &str) -> (r: bool)
    ensures
        r == spec_starts_with(h@, p@),
{
    let hl = h.unicode_len();
    let pl = p.unicode_len();
    if pl > hl {
        return false;
    }
    let mut j: usize = 0;
    while j < pl
        invariant
            0 <= j <= pl,
            pl <= hl,
            hl == h@.len(),
            pl == p@.len(),
            forall|k: int| 0 <= k < j ==> h@[k] == p@[k],
        decreases pl - j,
    {
        if h.get_char(j) != p.get_char(j) {
            proof {
                if matches_at(h@, p@, 0) {
                    assert(h@.subrange(0, pl as int)[j as int] == p@[j as int]);
                }
            }
            return false;
        }
        j = j + 1;
    }
    proof {
        assert(h@.subrange(0, pl as int) =~= p@);
    }
    true
}

/// The ASCII-lowercase counterpart of a character: ASCII capital letters map
/// to their small forms, every other character stays as it is.
pub open spec fn spec_lower_char(c: char) -> char {
    if c == 'A' {
        'a'
    } else if c == 'B' {
        'b'
    } else if c == 'C' {
        'c'
    } else if c == 'D' {
        'd'
    } else if c == 'E' {
        'e'
    } else if c == 'F' {
        'f'
    } else if c == 'G' {
        'g'
    } else if c == 'H' {
        'h'
    } else if c == 'I' {
        'i'
    } else if c == 'J' {
        'j'
    } else if c == 'K' {
        'k'
    } else if c == 'L' {
        'l'
    } else if c == 'M' {
        'm'
    } else if c == 'N' {
        'n'
    } else if c == 'O' {
        'o'
    } else if c == 'P' {
        'p'
    } else if c == 'Q' {
        'q'
    } else if c == 'R' {
        'r'
    } else if c == 'S' {
        's'
    } else if c == 'T' {
        't'
    } else if c == 'U' {
        'u'
    } else if c == 'V' {
        'v'
    } else if c == 'W' {
        'w'
    } else if c == 'X' {
        'x'
    } else if c == 'Y' {
        'y'
    } else if c == 'Z' {
        'z'
    } else {
        c
    }
}

/// A character sequence with every character ASCII-lowercased.
pub open spec fn lower_seq(s: Seq<char>) -> Seq<char> {
    Seq::new(s.len(), |i: int| spec_lower_char(s[i]))
}

/// The ASCII-lowercase counterpart of a character.
pub fn lower_char(c: char) -> (r: char)
    ensures
        r == spec_lower_char(c),
{
    match c {
        'A' => 'a',
        'B' => 'b',
        'C' => 'c',
        'D' => 'd',
        'E' => 'e',
        'F' => 'f',
        'G' => 'g',
        'H' => 'h',
        'I' => 'i',
        'J' => 'j',
        'K' => 'k',
        'L' => 'l',
        'M' => 'm',
        'N' => 'n',
        'O' => 'o',
        'P' => 'p',
        'Q' => 'q',
        'R' => 'r',
        'S' => 's',
        'T' => 't',
        'U' => 'u',
        'V' => 'v',
        'W' => 'w',
        'X' => 'x',
        'Y' => 'y',
        'Z' => 'z',
        other => other,
    }
}

/// The one-character string for an ASCII capital letter's small form, or
/// nothing for a character that case folding leaves alone.
fn lower_char_str(c: char) -> (r: Option<&'static str>)
    ensures
        match r {
            Some(t) => t@ == seq![spec_lower_char(c)],
            None => spec_lower_char(c) == c,
        },
{
    let r: Option<&'static str> = match c {
        'A' => Some("a"),
        'B' => Some("b"),
        'C' => Some("c"),
        'D' => Some("d"),
        'E' => Some("e"),
        'F' => Some("f"),
        'G' => Some("g"),
        'H' => Some("h"),
        'I' => Some("i"),
        'J' => Some("j"),
        'K' => Some("k"),
        'L' => Some("l"),
        'M' => Some("m"),
        'N' => Some("n"),
        'O' => Some("o"),
        'P' => Some("p"),
        'Q' => Some("q"),
        'R' => Some("r"),
        'S' => Some("s"),
        'T' => Some("t"),
        'U' => Some("u"),
        'V' => Some("v"),
        'W' => Some("w"),
        'X' => Some("x"),
        'Y' => Some("y"),
        'Z' => Some("z"),
        _ => None,
    };
    proof {
        reveal_strlit("a");
        reveal_strlit("b");
        reveal_strlit("c");
        reveal_strlit("d");
        reveal_strlit("e");
        reveal_strlit("f");
        reveal_strlit("g");
        reveal_strlit("h");
        reveal_strlit("i");
        reveal_strlit("j");
        reveal_strlit("k");
        reveal_strlit("l");
        reveal_strlit("m");
        reveal_strlit("n");
        reveal_strlit("o");
        reveal_strlit("p");
        reveal_strlit("q");
        reveal_strlit("r");
        reveal_strlit("s");
        reveal_strlit("t");
        reveal_strlit("u");
        reveal_strlit("v");
        reveal_strlit("w");
        reveal_strlit("x");
        reveal_strlit("y");
        reveal_strlit("z");
        if r is Some {
            assert(r->0@ =~= seq![spec_lower_char(c)]);
        }
    }
    r
}

/// Appends the ASCII-lowercased characters of `src` to `dst`.
pub fn append_lowered(dst: &mut String, src: &str)
    ensures
        final(dst)@ == old(dst)@ + lower_seq(src@),
{
    let len = src.unicode_len();
    let mut i: usize = 0;
    let ghost prefix: Seq<char> = dst@;
    while i < len
        invariant
            0 <= i <= len,
            len == src@.len(),
            dst@ == prefix + lower_seq(src@).subrange(0, i as int),
        decreases len - i,
    {
        let c = src.get_char(i);
        match lower_char_str(c) {
            Some(t) => {
                dst.append(t);
            },
            None => {
                let piece = src.substring_char(i, i + 1);
                dst.append(piece);
            },
        }
        proof {
            assert(dst@ =~= prefix + lower_seq(src@).subrange(0, i + 1));
        }
        i = i + 1;
    }
    proof {
        assert(lower_seq(src@).subrange(0, len as int) =~= lower_seq(src@));
    }
}

/// Whether the lowercased needle occurs anywhere in the lowercased haystack.
pub fn str_contains_ignore_ascii_case(h: &str, n: &str) -> (r: bool)
    ensures
        r == spec_contains(lower_seq(h@), lower_seq(n@)),
{
    let hl = h.unicode_len();
    let nl = n.unicode_len();
    let ghost lh = lower_seq(h@);
    let ghost ln = lower_seq(n@);
    if nl > hl {
        proof {
            assert(forall|i: int| !matches_at(lh, ln, i));
        }
        return false;
    }
    if nl == 0 {
        proof {
            assert(lh.subrange(0, 0) =~= ln);
            assert(matches_at(lh, ln, 0));
        }
        return true;
    }
    let mut i: usize = 0;
    while i <= hl - nl
        invariant
            0 <= i <= hl - nl + 1,
            1 <= nl <= hl,
            hl == h@.len(),
            nl == n@.len(),
            lh == lower_seq(h@),
            ln == lower_seq(n@),
            forall|ii: int| 0 <= ii < i ==> !matches_at(lh, ln, ii),
        decreases hl - nl + 1 - i,
    {
        let mut j: usize = 0;
        let mut matched = true;
        while j < nl
            invariant
                0 <= j <= nl,
                0 <= i <= hl - nl,
                hl == h@.len(),
                nl == n@.len(),
                lh == lower_seq(h@),
                ln == lower_seq(n@),
                matched ==> forall|k: int| 0 <= k < j ==> lh[i + k] == ln[k],
                !matched ==> !matches_at(lh, ln, i as int),
            decreases nl - j,
        {
            if matched {
                let hc = lower_char(h.get_char(i + j));
                let nc = lower_char(n.get_char(j));
                if hc != nc {
                    proof {
                        if matches_at(lh, ln, i as int) {
                            assert(lh.subrange(i as int, i + nl)[j as int] == ln[j as int]);
                        }
                    }
                    matched = false;
                }
            }
            j = j + 1;
        }
        if matched {
            proof {
                assert(lh.subrange(i as int, i + nl) =~= ln);
                assert(matches_at(lh, ln, i as int));
            }
            return true;
        }
        i = i + 1;
    }
    proof {
        assert(forall|ii: int| ii > hl - nl ==> !matches_at(lh, ln, ii));
    }
    false
}

/// Whether two strings hold the same characters after ASCII-lowercasing.
pub fn str_eq_ignore_ascii_case(a: &str, b: &str) -> (r: bool)
    ensures
        r == (lower_seq(a@) == lower_seq(b@)),
{
    let al = a.unicode_len();
    let bl = b.unicode_len();
    if al != bl {
        proof {
            assert(lower_seq(a@).len() == a@.len());
            assert(lower_seq(b@).len() == b@.len());
        }
        return false;
    }
    let mut j: usize = 0;
    while j < al
        invariant
            0 <= j <= al,
            al == a@.len(),
            bl == b@.len(),
            al == bl,
            forall|k: int| 0 <= k < j ==> lower_seq(a@)[k] == lower_seq(b@)[k],
        decreases al - j,
    {
        if lower_char(a.get_char(j)) != lower_char(b.get_char(j)) {
            proof {
                assert(lower_seq(a@)[j as int] == spec_lower_char(a@[j as int]));
                assert(lower_seq(b@)[j as int] == spec_lower_char(b@[j as int]));
            }
            return false;
        }
        j = j + 1;
    }
    proof {
        assert(lower_seq(a@) =~= lower_seq(b@));
    }
    true
}

/// The position of the first occurrence of a character at or after `from`,
/// or nothing when the character does not occur there.
pub open spec fn spec_find_char(s: Seq<char>, c: char, from: int) -> Option<int>
    decreases s.len() - from,
{
    if from < 0 || from >= s.len() {
        None
    } else if s[from] == c {
        Some(from)
    } else {
        spec_find_char(s, c, from + 1)
    }
}

/// Finds the first occurrence of a character at or after `from`.
pub fn find_char(s: &str, c: char, from: usize) -> (r: Option<usize>)
    ensures
        match r {
            Some(p) => spec_find_char(s@, c, from as int) == Some(p as int) && from <= p < s@.len(),
            None => spec_find_char(s@, c, from as int) is None,
        },
{
    let len = s.unicode_len();
    let mut i: usize = from;
    while i < len
        invariant
            from <= i,
            len == s@.len(),
            spec_find_char(s@, c, from as int) == spec_find_char(s@, c, i as int),
        decreases len - i,
    {
        if s.get_char(i) == c {
            return Some(i);
        }
        i = i + 1;
    }
    None
}

/// The key/value views of a list of string pairs.
pub open spec fn pairs_view(s: Seq<(String, String)>) -> Seq<(Seq<char>, Seq<char>)> {
    Seq::new(s.len(), |i: int| (s[i].0@, s[i].1@))
}

/// The value under the first entry with the given key in a field list, or
/// nothing when no entry has that key.
pub open spec fn spec_pairs_get(s: Seq<(Seq<char>, Seq<char>)>, key: Seq<char>) -> Option<
    Seq<char>,
>
    decreases s.len(),
{
    if s.len() == 0 {
        None
    } else if s[0].0 == key {
        Some(s[0].1)
    } else {
        spec_pairs_get(s.drop_first(), key)
    }
}

/// Looks up the first entry with the given key in a list of string pairs.
pub fn pairs_get<'a>(entries: &'a Vec<(String, String)>, key: &str) -> (r: Option<&'a String>)
    ensures
        match r {
            Some(v) => spec_pairs_get(pairs_view(entries@), key@) == Some(v@),
            None => spec_pairs_get(pairs_view(entries@), key@) is None,
        },
{
    let ghost pv = pairs_view(entries@);
    let n = entries.len();
    proof {
        assert(pv.subrange(0, n as int) =~= pv);
    }
    let mut i: usize = 0;
    while i < n
        invariant
            0 <= i <= n,
            n == entries@.len(),
            pv == pairs_view(entries@),
            spec_pairs_get(pv, key@) == spec_pairs_get(pv.subrange(i as int, n as int), key@),
        decreases n - i,
    {
        proof {
            assert(pv.subrange(i as int, n as int).drop_first() =~= pv.subrange(i + 1, n as int));
            assert(pv.subrange(i as int, n as int)[0] == pv[i as int]);
        }
        if str_eq(entries[i].0.as_str(), key) {
            return Some(&entries[i].1);
        }
        i = i + 1;
    }
    proof {
        assert(pv.subrange(n as int, n as int).len() == 0);
    }
    None
}

/// Whether two strings hold the same characters.
pub fn str_eq(a: &str, b: &str) -> (r: bool)
    ensures
        r == (a@ == b@),
{
    let al = a.unicode_len();
    let bl = b.unicode_len();
    if al != bl {
        return false;
    }
    let mut j: usize = 0;
    while j < al
        invariant
            0 <= j <= al,
            al == a@.len(),
            bl == b@.len(),
            al == bl,
            forall|k: int| 0 <= k < j ==> a@[k] == b@[k],
        decreases al - j,
    {
        if a.get_char(j) != b.get_char(j) {
            return false;
        }
        j = j + 1;
    }
    proof {
        assert(a@ =~= b@);
    }
    true
}

} // verus!
