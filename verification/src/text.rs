//! Character-level text helpers shared by the error, manifest and link modules.
//!
//! Text is handled as a vector of characters, whose view is the same
//! `Seq<char>` as the view of a `str` or `String`.

use vstd::prelude::*;

verus! {

/// The characters of `s`.
pub fn chars_of(s: &str) -> (v: Vec<char>)
    ensures
        v@ == s@,
{
    let mut v: Vec<char> = Vec::new();
    for c in it: s.chars()
        invariant
            v@ == it.seq().take(it.index() as int),
            it.seq() == s@,
    {
        v.push(c);
    }
    v
}

/// Collects characters into a `String` with `String::from_iter`. The
/// contract claims that the string holds exactly the given characters, in
/// order.
#[verifier::external_body]
pub(crate) fn string_of(chars: &Vec<char>) -> (s: String)
    ensures
        s@ == chars@,
{
    String::from_iter(chars.iter())
}

/// What `str::to_lowercase` returns for a string with the given characters.
pub uninterp spec fn lowercased(s: Seq<char>) -> Seq<char>;

/// Lowercases a string with `str::to_lowercase`, which follows the Unicode
/// lowercase mapping. The contract only gives the result its name.
#[verifier::external_body]
pub(crate) fn lowercase(s: &str) -> (l: String)
    ensures
        l@ == lowercased(s@),
{
    s.to_lowercase()
}

/// Appends `tail` to `dst`.
pub fn append(dst: &mut Vec<char>, tail: &Vec<char>)
    ensures
        final(dst)@ == old(dst)@ + tail@,
{
    let mut i: usize = 0;
    while i < tail.len()
        invariant
            i <= tail.len(),
            dst@ == old(dst)@ + tail@.take(i as int),
        decreases tail.len() - i,
    {
        dst.push(tail[i]);
        proof {
            tail@.lemma_take_succ_push(i as int);
        }
        i += 1;
    }
    assert(tail@.take(tail.len() as int) == tail@);
}

/// Appends the characters of `tail` to `dst`.
pub fn append_str(dst: &mut Vec<char>, tail: &str)
    ensures
        final(dst)@ == old(dst)@ + tail@,
{
    let t = chars_of(tail);
    append(dst, &t);
}

/// Whether the two texts hold the same characters.
pub fn same(a: &Vec<char>, b: &Vec<char>) -> (eq: bool)
    ensures
        eq == (a@ == b@),
{
    if a.len() != b.len() {
        return false;
    }
    let mut i: usize = 0;
    while i < a.len()
        invariant
            i <= a.len(),
            a.len() == b.len(),
            forall|j: int| 0 <= j < i ==> a@[j] == b@[j],
        decreases a.len() - i,
    {
        if a[i] != b[i] {
            return false;
        }
        i += 1;
    }
    assert(a@ =~= b@);
    true
}

/// Whether the two strings hold the same characters.
pub fn str_same(a: &str, b: &str) -> (eq: bool)
    ensures
        eq == (a@ == b@),
{
    same(&chars_of(a), &chars_of(b))
}

/// Whether `needle` occurs in `hay` at offset `at`.
pub open spec fn occurs_at(hay: Seq<char>, needle: Seq<char>, at: int) -> bool {
    0 <= at && at + needle.len() <= hay.len() && hay.subrange(at, at + needle.len()) == needle
}

/// Whether `needle` occurs somewhere in `hay`. The empty text occurs in
/// every text.
pub open spec fn has_infix(hay: Seq<char>, needle: Seq<char>) -> bool {
    exists|at: int| occurs_at(hay, needle, at)
}

/// Whether `hay` ends with `suffix`.
pub open spec fn has_suffix(hay: Seq<char>, suffix: Seq<char>) -> bool {
    occurs_at(hay, suffix, hay.len() - suffix.len())
}

fn matches_at(hay: &Vec<char>, needle: &Vec<char>, at: usize) -> (m: bool)
    requires
        at + needle.len() <= hay.len(),
    ensures
        m == occurs_at(hay@, needle@, at as int),
{
    let mut j: usize = 0;
    while j < needle.len()
        invariant
            j <= needle.len(),
            at + needle.len() <= hay.len(),
            forall|k: int| 0 <= k < j ==> hay@[at + k] == needle@[k],
        decreases needle.len() - j,
    {
        if hay[at + j] != needle[j] {
            assert(hay@.subrange(at as int, at + needle.len())[j as int] != needle@[j as int]);
            return false;
        }
        j += 1;
    }
    assert(hay@.subrange(at as int, at + needle.len()) =~= needle@);
    true
}

/// Whether `needle` occurs somewhere in `hay`.
pub fn contains(hay: &Vec<char>, needle: &Vec<char>) -> (found: bool)
    ensures
        found == has_infix(hay@, needle@),
{
    if needle.len() > hay.len() {
        return false;
    }
    let last: usize = hay.len() - needle.len();
    let mut at: usize = 0;
    loop
        invariant
            at <= last,
            last == hay.len() - needle.len(),
            needle.len() <= hay.len(),
            forall|k: int| 0 <= k < at ==> !occurs_at(hay@, needle@, k),
        decreases last - at,
    {
        if matches_at(hay, needle, at) {
            return true;
        }
        if at == last {
            return false;
        }
        at += 1;
    }
}

/// Whether the text `hay` contains the text `needle`.
pub fn str_contains(hay: &str, needle: &str) -> (found: bool)
    ensures
        found == has_infix(hay@, needle@),
{
    let h = chars_of(hay);
    let n = chars_of(needle);
    contains(&h, &n)
}

/// Whether `hay` ends with `suffix`.
pub fn ends_with(hay: &Vec<char>, suffix: &Vec<char>) -> (found: bool)
    ensures
        found == has_suffix(hay@, suffix@),
{
    if suffix.len() > hay.len() {
        return false;
    }
    matches_at(hay, suffix, hay.len() - suffix.len())
}

/// The decimal digit for `d`, which is below ten.
pub open spec fn digit(d: int) -> char {
    if d == 0 {
        '0'
    } else if d == 1 {
        '1'
    } else if d == 2 {
        '2'
    } else if d == 3 {
        '3'
    } else if d == 4 {
        '4'
    } else if d == 5 {
        '5'
    } else if d == 6 {
        '6'
    } else if d == 7 {
        '7'
    } else if d == 8 {
        '8'
    } else {
        '9'
    }
}

/// Decimal notation of `n`, without sign or leading zeros.
pub open spec fn decimal(n: nat) -> Seq<char>
    decreases n,
{
    if n < 10 {
        seq![digit(n as int)]
    } else {
        decimal(n / 10).push(digit((n % 10) as int))
    }
}

fn digit_char(d: u32) -> (c: char)
    requires
        d < 10,
    ensures
        c == digit(d as int),
{
    if d == 0 {
        '0'
    } else if d == 1 {
        '1'
    } else if d == 2 {
        '2'
    } else if d == 3 {
        '3'
    } else if d == 4 {
        '4'
    } else if d == 5 {
        '5'
    } else if d == 6 {
        '6'
    } else if d == 7 {
        '7'
    } else if d == 8 {
        '8'
    } else {
        '9'
    }
}

/// Decimal notation of `n`.
pub fn decimal_chars(n: u32) -> (v: Vec<char>)
    ensures
        v@ == decimal(n as nat),
    decreases n,
{
    if n < 10 {
        let mut v: Vec<char> = Vec::new();
        v.push(digit_char(n));
        v
    } else {
        let mut v = decimal_chars(n / 10);
        v.push(digit_char(n % 10));
        v
    }
}

/// The value of a decimal digit, if `c` is one.
pub open spec fn digit_value(c: char) -> Option<nat> {
    if c == '0' {
        Some(0)
    } else if c == '1' {
        Some(1)
    } else if c == '2' {
        Some(2)
    } else if c == '3' {
        Some(3)
    } else if c == '4' {
        Some(4)
    } else if c == '5' {
        Some(5)
    } else if c == '6' {
        Some(6)
    } else if c == '7' {
        Some(7)
    } else if c == '8' {
        Some(8)
    } else if c == '9' {
        Some(9)
    } else {
        None
    }
}

/// Whether every character of `s` is a decimal digit.
pub open spec fn all_digits(s: Seq<char>) -> bool {
    forall|i: int| 0 <= i < s.len() ==> digit_value(#[trigger] s[i]) is Some
}

/// The number that the digits of `s` denote; zero for the empty text.
pub open spec fn digits_value(s: Seq<char>) -> nat
    decreases s.len(),
{
    if s.len() == 0 {
        0
    } else {
        digits_value(s.drop_last()) * 10 + match digit_value(s.last()) {
            Some(d) => d,
            None => 0,
        }
    }
}

/// The text without one leading `+`, if it has one.
pub open spec fn unsigned_part(s: Seq<char>) -> Seq<char> {
    if s.len() > 0 && s[0] == '+' {
        s.skip(1)
    } else {
        s
    }
}

/// Reads `s` as a `u32` the way `u32::from_str` does: an optional `+`, then
/// one or more decimal digits and nothing else, denoting a value that fits.
pub open spec fn parse_u32(s: Seq<char>) -> Option<u32> {
    let body = unsigned_part(s);
    if body.len() > 0 && all_digits(body) && digits_value(body) <= u32::MAX {
        Some(digits_value(body) as u32)
    } else {
        None
    }
}

fn digit_of(c: char) -> (d: Option<u64>)
    ensures
        match d {
            Some(v) => digit_value(c) == Some(v as nat) && v < 10,
            None => digit_value(c) is None,
        },
{
    if c == '0' {
        Some(0)
    } else if c == '1' {
        Some(1)
    } else if c == '2' {
        Some(2)
    } else if c == '3' {
        Some(3)
    } else if c == '4' {
        Some(4)
    } else if c == '5' {
        Some(5)
    } else if c == '6' {
        Some(6)
    } else if c == '7' {
        Some(7)
    } else if c == '8' {
        Some(8)
    } else if c == '9' {
        Some(9)
    } else {
        None
    }
}

/// A text that starts with digits denotes at least what those digits denote.
proof fn lemma_digits_value_grows(s: Seq<char>, n: int)
    requires
        0 <= n <= s.len(),
    ensures
        digits_value(s.take(n)) <= digits_value(s),
    decreases s.len() - n,
{
    if n < s.len() {
        lemma_digits_value_grows(s, n + 1);
        assert(s.take(n + 1).drop_last() == s.take(n));
    } else {
        assert(s.take(n) == s);
    }
}

/// Reads the characters `text[from..to]` as a `u32`.
pub fn parse_u32_range(text: &Vec<char>, from: usize, to: usize) -> (r: Option<u32>)
    requires
        from <= to <= text.len(),
    ensures
        r == parse_u32(text@.subrange(from as int, to as int)),
{
    let ghost whole = text@.subrange(from as int, to as int);
    let start: usize = if from < to && text[from] == '+' {
        from + 1
    } else {
        from
    };
    let ghost body = unsigned_part(whole);
    assert(body == text@.subrange(start as int, to as int));
    if start == to {
        return None;
    }
    let mut value: u64 = 0;
    let mut i: usize = start;
    while i < to
        invariant
            from <= start <= i <= to <= text.len(),
            start < to,
            body == text@.subrange(start as int, to as int),
            body == unsigned_part(text@.subrange(from as int, to as int)),
            all_digits(body.take(i - start)),
            value == digits_value(body.take(i - start)),
            value <= u32::MAX,
        decreases to - i,
    {
        let ghost seen = body.take(i - start);
        let ghost next = body.take(i + 1 - start);
        assert(next.drop_last() == seen);
        assert(next.last() == text@[i as int]);
        match digit_of(text[i]) {
            None => {
                assert(digit_value(body[i - start]) is None);
                return None;
            },
            Some(d) => {
                let grown: u64 = value * 10 + d;
                assert(grown == digits_value(next));
                if grown > 0xffff_ffff {
                    proof {
                        lemma_digits_value_grows(body, i + 1 - start);
                    }
                    return None;
                }
                assert forall|k: int| 0 <= k < next.len() implies digit_value(
                    #[trigger] next[k],
                ) is Some by {
                    if k < seen.len() {
                        assert(next[k] == seen[k]);
                    }
                }
                value = grown;
            },
        }
        i += 1;
    }
    assert(body.take(to - start) == body);
    Some(value as u32)
}

} // verus!
