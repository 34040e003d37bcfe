//! Character and string helpers shared by the tokenizer and the recogniser.
use vstd::prelude::*;

verus! {

/// Whether two string slices hold the same characters.
pub fn str_eq(a: &str, b: &str) -> (r: bool)
    ensures
        r == (a@ == b@),
{
    let n = a.unicode_len();
    let m = b.unicode_len();
    if n != m {
        return false;
    }
    let mut i: usize = 0;
    while i < n
        invariant
            n == a@.len(),
            m == b@.len(),
            n == m,
            i <= n,
            forall|j: int| 0 <= j < i ==> a@[j] == b@[j],
        decreases n - i,
    {
        if a.get_char(i) != b.get_char(i) {
            return false;
        }
        i = i + 1;
    }
    assert(a@ =~= b@);
    true
}

/// Whether a character is ASCII.
pub open spec fn is_ascii_char(c: char) -> bool {
    (c as u32) < 128
}

/// Whether an ASCII character is a letter or a decimal digit.
pub open spec fn ascii_alphanumeric(c: char) -> bool {
    ('a' <= c && c <= 'z') || ('A' <= c && c <= 'Z') || ('0' <= c && c <= '9')
}

/// The upper case of an ASCII character: `a`-`z` become `A`-`Z`, every
/// other character stays.
pub open spec fn ascii_upper(c: char) -> char {
    if 'a' <= c && c <= 'z' {
        ((c as u32) - 32) as char
    } else {
        c
    }
}

/// Names what `char::is_alphanumeric` answers for a character: whether it
/// has the Unicode Alphabetic property or a numeric general category.
pub uninterp spec fn alphanumeric(c: char) -> bool;

/// Calls `char::is_alphanumeric`. Its answer is named `alphanumeric`. For
/// an ASCII character it is true exactly for the letters and the decimal
/// digits; what it is for other characters (the Unicode tables) is not
/// stated here.
#[verifier::external_body]
pub(crate) fn is_alphanumeric(c: char) -> (r: bool)
    ensures
        r == alphanumeric(c),
        is_ascii_char(c) ==> r == ascii_alphanumeric(c),
{
    c.is_alphanumeric()
}

/// Names what `str::to_uppercase` gives for a string: its characters mapped
/// to upper case by the Unicode case tables.
pub uninterp spec fn uppercase(s: Seq<char>) -> Seq<char>;

/// Calls `str::to_uppercase`. Its result is named `uppercase`. Of an ASCII
/// string it is the string with `a`-`z` mapped to `A`-`Z` and every other
/// character kept; the Unicode case mapping of other strings is not stated
/// here.
#[verifier::external_body]
pub(crate) fn to_uppercase(s: &str) -> (r: String)
    ensures
        r@ == uppercase(s@),
        all_ascii(s@) ==> r@ == s@.map_values(|c: char| ascii_upper(c)),
{
    s.to_uppercase()
}

/// What `char::is_alphanumeric` answers for a character: for an ASCII
/// character whether it is a letter or a digit, for another the named
/// answer.
pub open spec fn alphanumeric_char(c: char) -> bool {
    if is_ascii_char(c) {
        ascii_alphanumeric(c)
    } else {
        alphanumeric(c)
    }
}

/// Whether every character of a sequence is ASCII.
pub open spec fn all_ascii(s: Seq<char>) -> bool {
    forall|i: int| 0 <= i < s.len() ==> is_ascii_char(#[trigger] s[i])
}

/// What `str::to_uppercase` gives for a string: for an ASCII string the
/// string with `a`-`z` mapped to `A`-`Z`, for another the named result.
pub open spec fn upper_case(s: Seq<char>) -> Seq<char> {
    if all_ascii(s) {
        s.map_values(|c: char| ascii_upper(c))
    } else {
        uppercase(s)
    }
}

/// The `char::is_alphanumeric` answer for each character of a sequence.
pub open spec fn alphanumeric_flags(s: Seq<char>) -> Seq<bool> {
    Seq::new(s.len(), |i: int| alphanumeric_char(s[i]))
}

/// Asks `char::is_alphanumeric` about each character of a line.
pub fn classify(line: &str) -> (flags: Vec<bool>)
    ensures
        flags@ == alphanumeric_flags(line@),
{
    let n = line.unicode_len();
    let mut flags: Vec<bool> = Vec::new();
    let mut i: usize = 0;
    while i < n
        invariant
            n == line@.len(),
            i <= n,
            flags@.len() == i,
            forall|j: int| 0 <= j < i ==> flags@[j] == alphanumeric_char(line@[j]),
        decreases n - i,
    {
        flags.push(is_alphanumeric(line.get_char(i)));
        i = i + 1;
    }
    assert(flags@ =~= alphanumeric_flags(line@));
    flags
}

} // verus!
