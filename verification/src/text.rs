//! Small verified helpers on strings and byte slices.

use vstd::prelude::*;
use vstd::string::StringExecFns;
use vstd::string::StrSliceExecFns;

verus! {

/// Whether two strings hold the same characters.
pub fn str_eq(a: &str, b: &str) -> (same: bool)
    ensures
        same == (a@ == b@),
{
    a.to_owned() == b.to_owned()
}

/// The characters of `s`, one by one.
pub fn chars_of(s: &str) -> (out: Vec<char>)
    ensures
        out@ == s@,
{
    let n = s.unicode_len();
    let mut out: Vec<char> = Vec::new();
    let mut i: usize = 0;
    while i < n
        invariant
            n == s@.len(),
            i <= n,
            out@ == s@.subrange(0, i as int),
        decreases n - i,
    {
        out.push(s.get_char(i));
        i += 1;
        assert(out@ =~= s@.subrange(0, i as int));
    }
    assert(s@.subrange(0, n as int) =~= s@);
    out
}

/// The four bytes `b0 b1 b2 b3` stand in `data` at `at`.
pub open spec fn four_at(data: Seq<u8>, at: int, b0: u8, b1: u8, b2: u8, b3: u8) -> bool {
    &&& 0 <= at
    &&& at + 4 <= data.len()
    &&& data[at] == b0
    &&& data[at + 1] == b1
    &&& data[at + 2] == b2
    &&& data[at + 3] == b3
}

/// Whether the four bytes `b0 b1 b2 b3` stand in `data` at `at`.
pub fn has_four_at(data: &[u8], at: usize, b0: u8, b1: u8, b2: u8, b3: u8) -> (found: bool)
    ensures
        found == four_at(data@, at as int, b0, b1, b2, b3),
{
    let n = data.len();
    if n < 4 || at > n - 4 {
        return false;
    }
    data[at] == b0 && data[at + 1] == b1 && data[at + 2] == b2 && data[at + 3] == b3
}

/// `std::str::from_utf8`: the bytes as a string slice where they are
/// well-formed UTF-8, and nothing where they are not. Well-formedness and the
/// decoded characters are those of vstd's model of UTF-8.
#[verifier::external_body]
pub(crate) fn str_from_utf8<'a>(bytes: &'a [u8]) -> (decoded: Option<&'a str>)
    ensures
        decoded is Some <==> vstd::utf8::valid_utf8(bytes@),
        decoded matches Some(s) ==> s@ == vstd::utf8::decode_utf8(bytes@),
{
    std::str::from_utf8(bytes).ok()
}

/// The character of a decimal digit.
pub open spec fn digit_char(d: nat) -> char {
    if d == 0 {
        '0'
    } else if d == 1 {
        '1'
    } else if d == 2 {
        '2'
    } else if d == 3 {
        '3'
    } else if d == 4 {
        '4'
    } else if d == 5 {
        '5'
    } else if d == 6 {
        '6'
    } else if d == 7 {
        '7'
    } else if d == 8 {
        '8'
    } else {
        '9'
    }
}

/// A number in decimal, without sign or leading zeros.
pub open spec fn decimal_text(n: nat) -> Seq<char>
    decreases n,
{
    if n < 10 {
        seq![digit_char(n)]
    } else {
        decimal_text(n / 10).push(digit_char(n % 10))
    }
}

fn digit_str(d: u8) -> (s: &'static str)
    requires
        d < 10,
    ensures
        s@ == seq![digit_char(d as nat)],
{
    proof {
        reveal_strlit("0");
        reveal_strlit("1");
        reveal_strlit("2");
        reveal_strlit("3");
        reveal_strlit("4");
        reveal_strlit("5");
        reveal_strlit("6");
        reveal_strlit("7");
        reveal_strlit("8");
        reveal_strlit("9");
    }
    let s = if d == 0 {
        "0"
    } else if d == 1 {
        "1"
    } else if d == 2 {
        "2"
    } else if d == 3 {
        "3"
    } else if d == 4 {
        "4"
    } else if d == 5 {
        "5"
    } else if d == 6 {
        "6"
    } else if d == 7 {
        "7"
    } else if d == 8 {
        "8"
    } else {
        "9"
    };
    assert(s@ =~= seq![digit_char(d as nat)]);
    s
}

/// Writes a number in decimal.
pub fn format_decimal(n: u128) -> (out: String)
    ensures
        out@ == decimal_text(n as nat),
{
    let mut rest: u128 = n;
    let mut tail: String = String::new();
    while rest >= 10
        invariant
            decimal_text(n as nat) == decimal_text(rest as nat) + tail@,
        decreases rest,
    {
        let d: u8 = (rest % 10) as u8;
        let ghost before = tail@;
        tail = digit_str(d).to_string().concat(tail.as_str());
        proof {
            let r = rest as nat;
            assert(decimal_text(r) == decimal_text(r / 10).push(digit_char(r % 10)));
            assert(decimal_text(r / 10).push(digit_char(r % 10)) + before =~= decimal_text(r / 10)
                + tail@);
        }
        rest = rest / 10;
    }
    digit_str(rest as u8).to_string().concat(tail.as_str())
}

/// The index of the first `c` in `s`, or the length of `s` where it holds none.
pub open spec fn find_char(s: Seq<char>, c: char) -> int
    decreases s.len(),
{
    if s.len() == 0 {
        0
    } else if s[0] == c {
        0
    } else {
        1 + find_char(s.drop_first(), c)
    }
}

/// `find_char` gives an index within the text or its length; below it no
/// character is `c`, and at it stands `c` where it lies within the text.
pub proof fn lemma_find_char(s: Seq<char>, c: char)
    ensures
        0 <= find_char(s, c) <= s.len(),
        find_char(s, c) < s.len() ==> s[find_char(s, c)] == c,
        forall|k: int| 0 <= k < find_char(s, c) ==> s[k] != c,
    decreases s.len(),
{
    if s.len() > 0 && s[0] != c {
        let rest = s.drop_first();
        lemma_find_char(rest, c);
        assert forall|k: int| 0 <= k < find_char(s, c) implies s[k] != c by {
            if k > 0 {
                assert(s[k] == rest[k - 1]);
            }
        }
    }
}

/// The index of the first `c` at or after `from`, or the length where there is none.
pub fn find_from(chars: &Vec<char>, from: usize, c: char) -> (at: usize)
    requires
        from <= chars@.len(),
    ensures
        from <= at <= chars@.len(),
        at == from + find_char(chars@.subrange(from as int, chars@.len() as int), c),
{
    let n = chars.len();
    let mut i: usize = from;
    while i < n
        invariant
            n == chars@.len(),
            from <= i <= n,
            find_char(chars@.subrange(from as int, n as int), c) == (i - from) + find_char(
                chars@.subrange(i as int, n as int),
                c,
            ),
        decreases n - i,
    {
        let ghost here = chars@.subrange(i as int, n as int);
        assert(here[0] == chars@[i as int]);
        if chars[i] == c {
            return i;
        }
        assert(here.drop_first() =~= chars@.subrange(i + 1, n as int));
        i += 1;
    }
    i
}

/// `prefix` stands at the start of `s`.
pub open spec fn has_prefix(s: Seq<char>, prefix: Seq<char>) -> bool {
    prefix.len() <= s.len() && s.subrange(0, prefix.len() as int) == prefix
}

/// Whether `prefix` stands at the start of `chars`.
pub fn starts_with(chars: &Vec<char>, prefix: &Vec<char>) -> (found: bool)
    ensures
        found == has_prefix(chars@, prefix@),
{
    if prefix.len() > chars.len() {
        return false;
    }
    let mut i: usize = 0;
    while i < prefix.len()
        invariant
            prefix@.len() <= chars@.len(),
            i <= prefix@.len(),
            forall|k: int| 0 <= k < i ==> chars@[k] == prefix@[k],
        decreases prefix@.len() - i,
    {
        if chars[i] != prefix[i] {
            assert(chars@.subrange(0, prefix@.len() as int)[i as int] != prefix@[i as int]);
            return false;
        }
        i += 1;
    }
    assert(chars@.subrange(0, prefix@.len() as int) =~= prefix@);
    true
}

/// `pattern` stands in `s` at `at`.
pub open spec fn occurs_at(s: Seq<char>, at: int, pattern: Seq<char>) -> bool {
    0 <= at && at + pattern.len() <= s.len() && s.subrange(at, at + pattern.len()) == pattern
}

/// `pattern` stands somewhere in `s`.
pub open spec fn contains_text(s: Seq<char>, pattern: Seq<char>) -> bool {
    exists|at: int| occurs_at(s, at, pattern)
}

fn matches_at(chars: &Vec<char>, at: usize, pattern: &Vec<char>) -> (found: bool)
    requires
        at + pattern@.len() <= chars@.len(),
    ensures
        found == occurs_at(chars@, at as int, pattern@),
{
    let n = chars.len();
    let mut i: usize = 0;
    while i < pattern.len()
        invariant
            n == chars@.len(),
            at + pattern@.len() <= chars@.len(),
            i <= pattern@.len(),
            forall|k: int| 0 <= k < i ==> chars@[at + k] == pattern@[k],
        decreases pattern@.len() - i,
    {
        if chars[at + i] != pattern[i] {
            assert(chars@.subrange(at as int, at + pattern@.len())[i as int] != pattern@[i as int]);
            return false;
        }
        i += 1;
    }
    assert(chars@.subrange(at as int, at + pattern@.len()) =~= pattern@);
    true
}

/// Whether `pattern` stands somewhere in `chars`.
pub fn contains(chars: &Vec<char>, pattern: &Vec<char>) -> (found: bool)
    ensures
        found == contains_text(chars@, pattern@),
{
    if pattern.len() > chars.len() {
        return false;
    }
    let last = chars.len() - pattern.len();
    let mut at: usize = 0;
    while at < last
        invariant
            pattern@.len() <= chars@.len(),
            last == chars@.len() - pattern@.len(),
            at <= last,
            forall|k: int| 0 <= k < at ==> !occurs_at(chars@, k, pattern@),
        decreases last - at,
    {
        if matches_at(chars, at, pattern) {
            return true;
        }
        at += 1;
    }
    matches_at(chars, last, pattern)
}

/// The characters of `s` from `from` up to `to`, as a string.
pub fn substring(s: &str, from: usize, to: usize) -> (out: String)
    requires
        from <= to <= s@.len(),
    ensures
        out@ == s@.subrange(from as int, to as int),
{
    s.substring_char(from, to).to_owned()
}

} // verus!
