//! Text helpers: decimal numbers in both directions and case-blind search.

use vstd::prelude::*;

verus! {

/// `c` is one of the ten ASCII digits.
pub open spec fn is_digit(c: char) -> bool {
    '0' <= c && c <= '9'
}

/// The number an ASCII digit stands for.
pub open spec fn digit_value(c: char) -> nat {
    (c as int - '0' as int) as nat
}

/// The ASCII digit for `d`; meant for `d < 10`.
pub open spec fn digit_char(d: nat) -> char {
    if d == 0 {
        '0'
    } else if d == 1 {
        '1'
    } else if d == 2 {
        '2'
    } else if d == 3 {
        '3'
    } else if d == 4 {
        '4'
    } else if d == 5 {
        '5'
    } else if d == 6 {
        '6'
    } else if d == 7 {
        '7'
    } else if d == 8 {
        '8'
    } else {
        '9'
    }
}

/// `n` in decimal, without sign or leading zeros.
pub open spec fn decimal_text(n: nat) -> Seq<char>
    decreases n,
{
    if n < 10 {
        seq![digit_char(n)]
    } else {
        decimal_text(n / 10).push(digit_char(n % 10))
    }
}

/// The number that a string of digits denotes; 0 for the empty string.
pub open spec fn decimal_value(digits: Seq<char>) -> nat
    decreases digits.len(),
{
    if digits.len() == 0 {
        0
    } else {
        decimal_value(digits.drop_last()) * 10 + digit_value(digits.last())
    }
}

/// Every character of `s` is an ASCII digit.
pub open spec fn all_digits(s: Seq<char>) -> bool {
    forall|i: int| 0 <= i < s.len() ==> is_digit(#[trigger] s[i])
}

/// `s` without one leading `+`, if it has one.
pub open spec fn without_plus(s: Seq<char>) -> Seq<char> {
    if s.len() > 0 && s[0] == '+' {
        s.skip(1)
    } else {
        s
    }
}

/// What parsing `s` as an unsigned 64-bit decimal gives: an optional `+`, then
/// at least one digit and nothing else, denoting a number that fits.
pub open spec fn parse_u64_spec(s: Seq<char>) -> Option<u64> {
    let digits = without_plus(s);
    if digits.len() > 0 && all_digits(digits) && decimal_value(digits) <= u64::MAX {
        Some(decimal_value(digits) as u64)
    } else {
        None
    }
}

/// The lower-case form of an ASCII letter; any other character unchanged.
pub open spec fn ascii_lower(c: char) -> char {
    if 'A' <= c && c <= 'Z' {
        ((c as u8) + 32) as char
    } else {
        c
    }
}

/// `s` with its ASCII letters in lower case.
pub open spec fn to_ascii_lowercase(s: Seq<char>) -> Seq<char> {
    s.map_values(|c: char| ascii_lower(c))
}

/// The `len` characters of `s` that start at `at`.
pub open spec fn window(s: Seq<char>, at: int, len: int) -> Seq<char> {
    s.subrange(at, at + len)
}

/// `needle` occurs somewhere in `hay`.
pub open spec fn contains(hay: Seq<char>, needle: Seq<char>) -> bool {
    exists|at: int|
        0 <= at && at + needle.len() <= hay.len() && #[trigger] window(
            hay,
            at,
            needle.len() as int,
        ) == needle
}

/// A longer string of digits denotes no smaller number than its prefixes.
proof fn lemma_decimal_value_prefix(digits: Seq<char>, k: int)
    requires
        0 <= k <= digits.len(),
    ensures
        decimal_value(digits.take(k)) <= decimal_value(digits),
    decreases digits.len(),
{
    if k == digits.len() {
        assert(digits.take(k) =~= digits);
    } else {
        lemma_decimal_value_prefix(digits.drop_last(), k);
        assert(digits.drop_last().take(k) =~= digits.take(k));
    }
}

/// The characters of a string, in order.
pub fn to_chars(s: &str) -> (chars: Vec<char>)
    ensures
        chars@ == s@,
{
    let mut chars: Vec<char> = Vec::new();
    for c in it: s.chars()
        invariant
            it.seq() == s@,
            chars@ == it.seq().take(it.index() as int),
    {
        chars.push(c);
    }
    chars
}

/// Lower-cases one character as `ascii_lower` says.
pub fn lower(c: char) -> (r: char)
    ensures
        r == ascii_lower(c),
{
    if c >= 'A' && c <= 'Z' {
        ((c as u8) + 32) as char
    } else {
        c
    }
}

/// Parses an unsigned 64-bit decimal number.
///
/// Accepts what `u64`'s `FromStr` accepts: an optional `+` followed by one or
/// more ASCII digits whose value fits; no blanks, no other sign.
pub fn parse_u64(s: &str) -> (r: Option<u64>)
    ensures
        r == parse_u64_spec(s@),
{
    let chars = to_chars(s);
    let len = chars.len();
    let first: usize = if len > 0 && chars[0] == '+' {
        1
    } else {
        0
    };
    let ghost digits = without_plus(s@);
    if first == len {
        return None;
    }
    let mut value: u64 = 0;
    let mut i: usize = first;
    while i < len
        invariant
            first <= i <= len,
            first <= 1,
            len == chars@.len(),
            chars@ == s@,
            digits == s@.skip(first as int),
            digits == without_plus(s@),
            all_digits(digits.take(i - first)),
            value == decimal_value(digits.take(i - first)),
        decreases len - i,
    {
        let c = chars[i];
        if !(c >= '0' && c <= '9') {
            assert(!is_digit(digits[i - first]));
            return None;
        }
        let d: u64 = (c as u32 - '0' as u32) as u64;
        let ghost next = digits.take(i - first + 1);
        proof {
            assert(next.drop_last() =~= digits.take(i - first));
            lemma_decimal_value_prefix(digits, i - first + 1);
            assert forall|j: int| 0 <= j < next.len() implies is_digit(#[trigger] next[j]) by {
                if j < i - first {
                    assert(next[j] == digits.take(i - first)[j]);
                }
            }
        }
        let scaled = match value.checked_mul(10) {
            Some(v) => v,
            None => {
                return None;
            },
        };
        value = match scaled.checked_add(d) {
            Some(v) => v,
            None => {
                return None;
            },
        };
        i += 1;
    }
    assert(digits.take(len - first) =~= digits);
    Some(value)
}

/// Whether `needle` occurs in `hay` once `hay`'s ASCII letters are lower-cased.
pub fn contains_lowercased(hay: &str, needle: &str) -> (found: bool)
    ensures
        found == contains(to_ascii_lowercase(hay@), needle@),
{
    let hay_chars = to_chars(hay);
    let needle_chars = to_chars(needle);
    let n = needle_chars.len();
    let ghost lowered = to_ascii_lowercase(hay@);
    if n > hay_chars.len() {
        return false;
    }
    let last = hay_chars.len() - n;
    let mut at: usize = 0;
    loop
        invariant
            at <= last,
            last + n == hay_chars.len(),
            n == needle_chars.len(),
            hay_chars@ == hay@,
            needle_chars@ == needle@,
            lowered == to_ascii_lowercase(hay@),
            forall|a: int| 0 <= a < at ==> #[trigger] window(lowered, a, n as int) != needle@,
        decreases last - at,
    {
        let mut k: usize = 0;
        let mut same = true;
        while k < n && same
            invariant
                k <= n,
                at <= last,
                last + n == hay_chars.len(),
                n == needle_chars.len(),
                hay_chars@ == hay@,
                needle_chars@ == needle@,
                lowered == to_ascii_lowercase(hay@),
                same ==> forall|j: int| 0 <= j < k ==> lowered[at + j] == #[trigger] needle@[j],
                !same ==> window(lowered, at as int, n as int) != needle@,
            decreases n - k + (if same { 1int } else { 0int }),
        {
            if lower(hay_chars[at + k]) == needle_chars[k] {
                k += 1;
            } else {
                same = false;
            }
        }
        if same {
            assert(window(lowered, at as int, n as int) =~= needle@);
            return true;
        }
        if at == last {
            return false;
        }
        at += 1;
    }
}

/// The one-character string for a decimal digit.
pub fn digit_str(d: u64) -> (text: &'static str)
    requires
        d < 10,
    ensures
        text@ == seq![digit_char(d as nat)],
{
    proof {
        reveal_strlit("0");
        reveal_strlit("1");
        reveal_strlit("2");
        reveal_strlit("3");
        reveal_strlit("4");
        reveal_strlit("5");
        reveal_strlit("6");
        reveal_strlit("7");
        reveal_strlit("8");
        reveal_strlit("9");
    }
    if d == 0 {
        "0"
    } else if d == 1 {
        "1"
    } else if d == 2 {
        "2"
    } else if d == 3 {
        "3"
    } else if d == 4 {
        "4"
    } else if d == 5 {
        "5"
    } else if d == 6 {
        "6"
    } else if d == 7 {
        "7"
    } else if d == 8 {
        "8"
    } else {
        "9"
    }
}

/// Appends `n` in decimal to `out`.
pub fn append_decimal(out: &mut String, n: u64)
    ensures
        final(out)@ == old(out)@ + decimal_text(n as nat),
    decreases n,
{
    if n >= 10 {
        append_decimal(out, n / 10);
    }
    out.append(digit_str(n % 10));
}

} // verus!
