//! Text primitives the filters and the editing state are specified with:
//! substring and prefix matching over character sequences, the decimal
//! representation of an id, and small trusted wrappers around the few `std`
//! string operations that vstd gives no specification.

use vstd::prelude::*;

verus! {

// ---------------------------------------------------------------------------
// Whitespace (trusted: the Unicode `White_Space` property is std's table).
// ---------------------------------------------------------------------------
/// Whether a character has the Unicode `White_Space` property.
pub uninterp spec fn is_space_char(c: char) -> bool;

/// Relies on char::is_whitespace: true exactly for characters with the
/// Unicode `White_Space` property, a function of the character alone.
#[verifier::external_body]
pub fn char_is_space(c: char) -> (r: bool)
    ensures
        r == is_space_char(c),
{
    c.is_whitespace()
}

// ---------------------------------------------------------------------------
// String editing (trusted: vstd specifies neither push nor pop).
// ---------------------------------------------------------------------------
/// Relies on String::push: appends exactly the given character at the end.
#[verifier::external_body]
pub fn string_push_char(s: &mut String, c: char)
    ensures
        final(s)@ == old(s)@.push(c),
{
    s.push(c);
}

/// Relies on String::pop: removes and returns the last character, and leaves
/// an empty string unchanged, returning nothing.
#[verifier::external_body]
pub fn string_pop_char(s: &mut String) -> (r: Option<char>)
    ensures
        old(s)@.len() == 0 ==> final(s)@ == old(s)@ && r is None,
        old(s)@.len() > 0 ==> final(s)@ == old(s)@.drop_last() && r == Some(old(s)@.last()),
{
    s.pop()
}

// ---------------------------------------------------------------------------
// ASCII digits.
// ---------------------------------------------------------------------------
/// Whether a character is one of the ten ASCII decimal digits.
pub open spec fn is_digit_char(c: char) -> bool {
    48 <= c as u32 && c as u32 <= 57
}

/// The numeric value of an ASCII digit character.
pub open spec fn digit_val(c: char) -> int {
    c as u32 - 48
}

/// Decides whether a character is an ASCII decimal digit.
pub fn char_is_digit(c: char) -> (r: bool)
    ensures
        r == is_digit_char(c),
{
    let u = c as u32;
    48 <= u && u <= 57
}

/// Reads the numeric value of an ASCII digit character.
pub fn digit_of_char(c: char) -> (r: u32)
    requires
        is_digit_char(c),
    ensures
        r == digit_val(c),
{
    c as u32 - 48
}

/// The ASCII digit character for a value below ten.
pub open spec fn dec_digit(d: int) -> char {
    if d == 0 {
        '0'
    } else if d == 1 {
        '1'
    } else if d == 2 {
        '2'
    } else if d == 3 {
        '3'
    } else if d == 4 {
        '4'
    } else if d == 5 {
        '5'
    } else if d == 6 {
        '6'
    } else if d == 7 {
        '7'
    } else if d == 8 {
        '8'
    } else {
        '9'
    }
}

fn dec_digit_exec(d: usize) -> (c: char)
    requires
        d < 10,
    ensures
        c == dec_digit(d as int),
{
    if d == 0 {
        '0'
    } else if d == 1 {
        '1'
    } else if d == 2 {
        '2'
    } else if d == 3 {
        '3'
    } else if d == 4 {
        '4'
    } else if d == 5 {
        '5'
    } else if d == 6 {
        '6'
    } else if d == 7 {
        '7'
    } else if d == 8 {
        '8'
    } else {
        '9'
    }
}

/// The decimal digit string of a non-negative number, most significant digit
/// first, without leading zeros (`0` itself is the single digit `'0'`).
pub open spec fn dec_rep(n: int) -> Seq<char>
    decreases n,
{
    if n < 10 {
        seq![dec_digit(n)]
    } else {
        dec_rep(n / 10).push(dec_digit(n % 10))
    }
}

/// Writes a number out as its decimal digit characters.
pub fn to_decimal(n: usize) -> (r: Vec<char>)
    ensures
        r@ == dec_rep(n as int),
    decreases n,
{
    if n < 10 {
        let mut v: Vec<char> = Vec::new();
        v.push(dec_digit_exec(n));
        proof {
            assert(v@ =~= dec_rep(n as int));
        }
        v
    } else {
        let mut v = to_decimal(n / 10);
        v.push(dec_digit_exec(n % 10));
        v
    }
}

// ---------------------------------------------------------------------------
// Prefix and substring matching.
// ---------------------------------------------------------------------------
/// Whether `pre` is a prefix of `s`. The empty sequence is a prefix of
/// everything.
pub open spec fn is_prefix(pre: Seq<char>, s: Seq<char>) -> bool {
    pre.len() <= s.len() && forall|j: int| 0 <= j < pre.len() ==> s[j] == pre[j]
}

/// Whether `needle` occurs in `hay` starting at index `i`.
pub open spec fn matches_at(hay: Seq<char>, needle: Seq<char>, i: int) -> bool {
    0 <= i && i + needle.len() <= hay.len() && forall|j: int|
        0 <= j < needle.len() ==> hay[i + j] == needle[j]
}

/// Whether `needle` occurs in `hay` as a contiguous subsequence.
pub open spec fn contains_seq(hay: Seq<char>, needle: Seq<char>) -> bool {
    exists|i: int| matches_at(hay, needle, i)
}

/// Decides whether the characters of `pre` are a prefix of the characters in
/// `chars`.
pub fn str_is_prefix_of_chars(pre: &str, chars: &Vec<char>) -> (r: bool)
    ensures
        r == is_prefix(pre@, chars@),
{
    let m = pre.unicode_len();
    if m > chars.len() {
        return false;
    }
    let mut j: usize = 0;
    while j < m
        invariant
            j <= m,
            m == pre@.len(),
            m <= chars@.len(),
            forall|k: int| 0 <= k < j ==> chars@[k] == pre@[k],
        decreases m - j,
    {
        if pre.get_char(j) != chars[j] {
            proof {
                assert(chars@[j as int] != pre@[j as int]);
            }
            return false;
        }
        j += 1;
    }
    true
}

fn str_matches_at(hay: &str, needle: &str, i: usize) -> (r: bool)
    requires
        i + needle@.len() <= hay@.len(),
        hay@.len() <= usize::MAX,
    ensures
        r == matches_at(hay@, needle@, i as int),
{
    let m = needle.unicode_len();
    let mut j: usize = 0;
    while j < m
        invariant
            j <= m,
            m == needle@.len(),
            i + m <= hay@.len(),
            hay@.len() <= usize::MAX,
            forall|k: int| 0 <= k < j ==> hay@[i + k] == needle@[k],
        decreases m - j,
    {
        if hay.get_char(i + j) != needle.get_char(j) {
            proof {
                assert(hay@[i + j as int] != needle@[j as int]);
            }
            return false;
        }
        j += 1;
    }
    true
}

/// Decides whether `needle` occurs anywhere in `hay` as a contiguous
/// substring.
pub fn str_contains(hay: &str, needle: &str) -> (r: bool)
    ensures
        r == contains_seq(hay@, needle@),
{
    let n = hay.unicode_len();
    let m = needle.unicode_len();
    if m > n {
        proof {
            assert(forall|i: int| !matches_at(hay@, needle@, i));
        }
        return false;
    }
    let mut i: usize = 0;
    while i <= n - m
        invariant
            m <= n,
            n == hay@.len(),
            m == needle@.len(),
            i <= n - m + 1,
            forall|k: int| 0 <= k < i ==> !matches_at(hay@, needle@, k),
        decreases n - m - i + 1,
    {
        if str_matches_at(hay, needle, i) {
            proof {
                assert(matches_at(hay@, needle@, i as int));
            }
            return true;
        }
        i += 1;
    }
    proof {
        assert(forall|k: int| k > n - m ==> !matches_at(hay@, needle@, k));
    }
    false
}

} // verus!
