//! Small verified text helpers shared by the modules that build strings.

use vstd::prelude::*;
use vstd::string::*;

verus! {

/// Appends one character to `s`.
///
/// Trusted wrapper around `String::push`, whose documentation says it
/// "appends the given char to the end of this String".
#[verifier::external_body]
pub(crate) fn push_char(s: &mut String, c: char)
    ensures
        final(s)@ == old(s)@.push(c),
{
    s.push(c)
}

/// Appends every character of `t` to `s`.
pub(crate) fn push_str(s: &mut String, t: &str)
    ensures
        final(s)@ == old(s)@ + t@,
{
    s.append(t)
}

/// Removes the last character of `s`, if there is one.
///
/// Trusted wrapper around `String::pop`, documented as removing the last
/// character from the string and returning it, or `None` if it is empty.
#[verifier::external_body]
pub(crate) fn pop_char(s: &mut String) -> (c: Option<char>)
    ensures
        old(s)@.len() == 0 ==> c is None && final(s)@ == old(s)@,
        old(s)@.len() > 0 ==> c == Some(old(s)@.last()) && final(s)@ == old(s)@.drop_last(),
{
    s.pop()
}

/// `s` without its last character (unchanged when empty).
pub open spec fn without_last(s: Seq<char>) -> Seq<char> {
    if s.len() == 0 {
        s
    } else {
        s.drop_last()
    }
}

/// `true` exactly when the two string slices hold the same characters.
///
/// Trusted wrapper around `<str as PartialEq>::eq`, which std documents as
/// comparing the two slices for equality.
#[verifier::external_body]
pub(crate) fn str_eq(a: &str, b: &str) -> (r: bool)
    ensures
        r == (a@ == b@),
{
    a == b
}

/// The decimal digit character for `d` (`0` ↦ `'0'`, …, `9` ↦ `'9'`).
pub open spec fn digit_char(d: int) -> char {
    if d == 0 { '0' }
    else if d == 1 { '1' }
    else if d == 2 { '2' }
    else if d == 3 { '3' }
    else if d == 4 { '4' }
    else if d == 5 { '5' }
    else if d == 6 { '6' }
    else if d == 7 { '7' }
    else if d == 8 { '8' }
    else { '9' }
}

/// The decimal rendering of `n`, most significant digit first, no leading zeros.
pub open spec fn decimal(n: nat) -> Seq<char>
    decreases n,
{
    if n < 10 {
        seq![digit_char(n as int)]
    } else {
        decimal(n / 10).push(digit_char((n % 10) as int))
    }
}

fn exec_digit_char(d: u32) -> (c: char)
    requires
        d < 10,
    ensures
        c == digit_char(d as int),
{
    match d {
        0 => '0',
        1 => '1',
        2 => '2',
        3 => '3',
        4 => '4',
        5 => '5',
        6 => '6',
        7 => '7',
        8 => '8',
        _ => '9',
    }
}

/// Appends the decimal rendering of `n` to `s`.
pub(crate) fn push_decimal(s: &mut String, n: u32)
    ensures
        final(s)@ == old(s)@ + decimal(n as nat),
    decreases n,
{
    if n >= 10 {
        push_decimal(s, n / 10);
    }
    push_char(s, exec_digit_char(n % 10));
    proof {
        if n >= 10 {
            assert(decimal(n as nat) == decimal((n / 10) as nat).push(digit_char((n % 10) as int)));
        }
    }
}

/// Appends the decimal rendering of the count `n` to `s`.
pub(crate) fn push_count(s: &mut String, n: usize)
    ensures
        final(s)@ == old(s)@ + decimal(n as nat),
    decreases n,
{
    if n >= 10 {
        push_count(s, n / 10);
    }
    let d = (n % 10) as u32;
    push_char(s, exec_digit_char(d));
    proof {
        if n >= 10 {
            assert(decimal(n as nat) == decimal((n / 10) as nat).push(digit_char((n % 10) as int)));
        }
    }
}

/// The Unicode `White_Space` property, the set `char::is_whitespace` tests:
/// U+0009–U+000D, U+0020, U+0085, U+00A0, U+1680, U+2000–U+200A, U+2028,
/// U+2029, U+202F, U+205F and U+3000.
pub open spec fn is_white_space(c: char) -> bool {
    let u = c as u32;
    (0x9 <= u && u <= 0xd) || u == 0x20 || u == 0x85 || u == 0xa0 || u == 0x1680 || (0x2000 <= u
        && u <= 0x200a) || u == 0x2028 || u == 0x2029 || u == 0x202f || u == 0x205f || u == 0x3000
}

fn exec_is_white_space(c: char) -> (b: bool)
    ensures
        b == is_white_space(c),
{
    let u = c as u32;
    (0x9 <= u && u <= 0xd) || u == 0x20 || u == 0x85 || u == 0xa0 || u == 0x1680 || (0x2000 <= u
        && u <= 0x200a) || u == 0x2028 || u == 0x2029 || u == 0x202f || u == 0x205f || u == 0x3000
}

/// `t` is `s` with its leading and trailing white space removed: a piece
/// `s[i..j]` with only white space outside it and none at either of its ends.
pub open spec fn is_trim_of(s: Seq<char>, t: Seq<char>) -> bool {
    exists|i: int, j: int|
        0 <= i <= j <= s.len() && t == s.subrange(i, j) && (forall|k: int|
            0 <= k < i ==> is_white_space(#[trigger] s[k])) && (forall|k: int|
            j <= k < s.len() ==> is_white_space(#[trigger] s[k])) && (i < j ==> !is_white_space(s[i])
            && !is_white_space(s[j - 1]))
}

/// The trimmed text of `s`: empty when `s` is all white space, otherwise the
/// run from its first to its last non-white-space character.
pub open spec fn trimmed(s: Seq<char>) -> Seq<char> {
    choose|t: Seq<char>| is_trim_of(s, t)
}

/// The trim of a text is unique, so [`trimmed`] names it.
pub proof fn lemma_trim_unique(s: Seq<char>, t1: Seq<char>, t2: Seq<char>)
    requires
        is_trim_of(s, t1),
        is_trim_of(s, t2),
    ensures
        t1 == t2,
{
    let (i1, j1) = choose|i: int, j: int|
        0 <= i <= j <= s.len() && t1 == s.subrange(i, j) && (forall|k: int|
            0 <= k < i ==> is_white_space(#[trigger] s[k])) && (forall|k: int|
            j <= k < s.len() ==> is_white_space(#[trigger] s[k])) && (i < j ==> !is_white_space(s[i])
            && !is_white_space(s[j - 1]));
    let (i2, j2) = choose|i: int, j: int|
        0 <= i <= j <= s.len() && t2 == s.subrange(i, j) && (forall|k: int|
            0 <= k < i ==> is_white_space(#[trigger] s[k])) && (forall|k: int|
            j <= k < s.len() ==> is_white_space(#[trigger] s[k])) && (i < j ==> !is_white_space(s[i])
            && !is_white_space(s[j - 1]));
    if i1 < j1 && i2 < j2 {
        // Both pieces are non-empty: neither can start or end inside the other's
        // white-space margins.
        if i1 < i2 {
            assert(is_white_space(s[i1]));
        }
        if i2 < i1 {
            assert(is_white_space(s[i2]));
        }
        if j1 < j2 {
            assert(is_white_space(s[j2 - 1]));
        }
        if j2 < j1 {
            assert(is_white_space(s[j1 - 1]));
        }
        assert(t1 =~= t2);
    } else if i1 < j1 {
        // `t2` is empty, so all of `s` is white space, `s[i1]` too.
        assert(is_white_space(s[i1]));
    } else if i2 < j2 {
        assert(is_white_space(s[i2]));
    } else {
        assert(t1 =~= t2);
    }
}

/// `s` with leading and trailing white space removed (as `str::trim`).
pub fn trim(s: &str) -> (t: &str)
    ensures
        is_trim_of(s@, t@),
        t@ == trimmed(s@),
{
    let n = s.unicode_len();
    let mut i: usize = 0;
    while i < n && exec_is_white_space(s.get_char(i))
        invariant
            n == s@.len(),
            0 <= i <= n,
            forall|k: int| 0 <= k < i ==> is_white_space(#[trigger] s@[k]),
        decreases n - i,
    {
        i = i + 1;
    }
    let mut j: usize = n;
    while j > i && exec_is_white_space(s.get_char(j - 1))
        invariant
            n == s@.len(),
            0 <= i <= j <= n,
            forall|k: int| j <= k < n ==> is_white_space(#[trigger] s@[k]),
            i < n ==> !is_white_space(s@[i as int]),
        decreases j - i,
    {
        j = j - 1;
    }
    let t = s.substring_char(i, j);
    proof {
        if i < j {
            assert(!is_white_space(s@[i as int]));
        }
        assert(is_trim_of(s@, t@));
        lemma_trim_unique(s@, t@, trimmed(s@));
    }
    t
}

} // verus!
