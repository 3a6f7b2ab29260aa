//! Spec-level helpers for the ASCII range: character classes and the
//! ASCII-only lowercase map.

use vstd::prelude::*;

verus! {

/// The code point lies in the ASCII range.
pub open spec fn spec_is_ascii_char(c: char) -> bool {
    c <= '\u{7f}'
}

/// An ASCII decimal digit.
pub open spec fn spec_ascii_digit(c: char) -> bool {
    '0' <= c && c <= '9'
}

/// An ASCII decimal digit, an ASCII uppercase letter, or an ASCII lowercase
/// letter.
pub open spec fn spec_ascii_alphanumeric(c: char) -> bool {
    spec_ascii_digit(c) || ('A' <= c && c <= 'Z') || ('a' <= c && c <= 'z')
}

/// ASCII lowercasing of one character: maps `A..=Z` to `a..=z` and leaves
/// every other character unchanged.
pub open spec fn spec_ascii_lower_char(c: char) -> char {
    if 'A' <= c && c <= 'Z' {
        ((c as u32) + 32) as char
    } else {
        c
    }
}

/// ASCII lowercasing of a character sequence, applied pointwise.
pub open spec fn spec_ascii_lower(s: Seq<char>) -> Seq<char> {
    s.map_values(|c: char| spec_ascii_lower_char(c))
}

/// Every code point is at least the null character: stated here so that it
/// can be instantiated on values read out of a sequence.
pub proof fn lemma_char_min(c: char)
    ensures
        '\0' <= c,
{
}

/// A sequence whose characters all lie in the ASCII range is an ASCII
/// character sequence in the sense of `vstd::utf8::is_ascii_chars`.
pub proof fn lemma_ascii_seq(t: Seq<char>)
    requires
        forall|j| 0 <= j < t.len() ==> spec_is_ascii_char(#[trigger] t[j]),
    ensures
        vstd::utf8::is_ascii_chars(t),
{
    assert forall|j| 0 <= j < t.len() implies '\0' <= #[trigger] t[j] <= '\u{7f}' by {
        lemma_char_min(t[j]);
    }
}

/// ASCII lowercasing keeps a character inside the ASCII range and is
/// idempotent on it.
pub proof fn lemma_ascii_lower_char_stable(c: char)
    requires
        spec_is_ascii_char(c),
    ensures
        spec_is_ascii_char(spec_ascii_lower_char(c)),
        spec_ascii_lower_char(spec_ascii_lower_char(c)) == spec_ascii_lower_char(c),
{
}

} // verus!
