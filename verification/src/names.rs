//! Name tokenization and normalization: splitting person and entity names
//! into parts and normalizing them for caseless comparison and matching.

use vstd::prelude::*;
use unicode_casefold::UnicodeCaseFold;

verus! {

use vstd::utf8::is_ascii_chars;
use crate::ascii::{lemma_ascii_seq, spec_ascii_lower, spec_ascii_lower_char, spec_is_ascii_char};
use crate::classify::{Mode, spec_action};
use crate::text::{
    join_strings,
    lemma_join_chars,
    spec_join,
    str_chars,
    strings_of_tokens,
};
use crate::tokenize::{
    lemma_tokens_chars,
    lemma_tokens_none,
    lemma_tokens_of_join,
    lemma_tokens_wf,
    spec_tokens,
    tokenize_chars,
};

/// Full Unicode case folding of one code point outside the ASCII range:
/// one code point folds to one, two or three, independently of its
/// neighbours.
pub uninterp spec fn fold_char_of(c: char) -> Seq<char>;

/// Full case folding of one code point: the ASCII lowercase map on the
/// ASCII range, the named per-code-point folding elsewhere.
pub open spec fn spec_fold_char(c: char) -> Seq<char> {
    if spec_is_ascii_char(c) {
        seq![spec_ascii_lower_char(c)]
    } else {
        fold_char_of(c)
    }
}

/// Full Unicode case folding of a character sequence: each code point folds
/// independently, and the folded pieces concatenate in order.
pub open spec fn spec_fold(s: Seq<char>) -> Seq<char>
    decreases s.len(),
{
    if s.len() == 0 {
        Seq::empty()
    } else {
        spec_fold_char(s[0]) + spec_fold(s.drop_first())
    }
}

/// Relies on unicode_casefold::UnicodeCaseFold::case_fold (the full,
/// non-Turkic folding): each code point folds independently of its
/// neighbours, the ASCII range folds by the ASCII lowercase map one
/// character for one, and folded text is folded: every character the fold
/// emits folds to itself, as the Unicode case-folding tables show (no
/// output character appears as a key).
#[verifier::external_body]
fn case_fold_str(name: &str) -> (r: String)
    ensures
        r@ == spec_fold(name@),
        forall|j| 0 <= j < r@.len() ==> spec_fold_char(#[trigger] r@[j]) == seq![r@[j]],
        forall|j|
            0 <= j < r@.len() && !spec_is_ascii_char(r@[j]) ==> fold_char_of(#[trigger] r@[j])
                == seq![r@[j]],
{
    name.chars().case_fold().collect()
}

/// A sequence whose characters each fold to themselves folds to itself.
pub proof fn lemma_fold_fixed(s: Seq<char>)
    requires
        forall|j| 0 <= j < s.len() ==> spec_fold_char(#[trigger] s[j]) == seq![s[j]],
    ensures
        spec_fold(s) == s,
    decreases s.len(),
{
    if s.len() > 0 {
        let rest = s.drop_first();
        assert forall|j| 0 <= j < rest.len() implies spec_fold_char(#[trigger] rest[j])
            == seq![rest[j]] by {
            assert(rest[j] == s[j + 1]);
        }
        lemma_fold_fixed(rest);
        assert(seq![s[0]] + rest =~= s);
    }
}

/// On pure ASCII text the fold is the ASCII lowercase map.
pub proof fn lemma_fold_ascii(s: Seq<char>)
    requires
        is_ascii_chars(s),
    ensures
        spec_fold(s) == spec_ascii_lower(s),
    decreases s.len(),
{
    if s.len() == 0 {
        assert(spec_ascii_lower(s) =~= Seq::<char>::empty());
    } else {
        let rest = s.drop_first();
        assert forall|j| 0 <= j < rest.len() implies '\0' <= #[trigger] rest[j] <= '\u{7f}' by {
            assert(rest[j] == s[j + 1]);
        }
        lemma_fold_ascii(rest);
        assert(spec_fold_char(s[0]) == seq![spec_ascii_lower_char(s[0])]);
        assert(seq![spec_ascii_lower_char(s[0])] + spec_ascii_lower(rest) =~= spec_ascii_lower(s));
    }
}

/// Prepare a name for tokenization and matching by applying full Unicode
/// case folding (not mere lowercasing: one character may fold to several).
/// Folding is idempotent: the result folds to itself.
pub fn prenormalize_name(name: &str) -> (r: String)
    ensures
        r@ == spec_fold(name@),
        spec_fold(r@) == r@,
        forall|j| 0 <= j < r@.len() ==> spec_fold_char(#[trigger] r@[j]) == seq![r@[j]],
{
    let r = case_fold_str(name);
    proof {
        lemma_fold_fixed(r@);
    }
    r
}

/// Split a name into parts: tokenize in name mode, keeping only tokens of
/// at least `token_min_length` characters. No case folding is applied here.
pub fn tokenize_name(text: &str, token_min_length: usize) -> (r: Vec<String>)
    ensures
        r.deep_view() == spec_tokens(Mode::Name, text@, token_min_length as nat),
{
    let chars = str_chars(text);
    let toks = tokenize_chars(Mode::Name, &chars, token_min_length);
    strings_of_tokens(&toks)
}

/// The normalized form of a name: absent for empty input, for input whose
/// folded form yields no tokens, and for an empty joined result; otherwise
/// the name-mode tokens of the folded input, joined with the separator.
pub open spec fn spec_normalize_name(s: Seq<char>, sep: Seq<char>) -> Option<Seq<char>> {
    if s.len() == 0 {
        None
    } else {
        let toks = spec_tokens(Mode::Name, spec_fold(s), 1);
        if toks.len() == 0 {
            None
        } else {
            let j = spec_join(toks, sep);
            if j.len() == 0 {
                None
            } else {
                Some(j)
            }
        }
    }
}

/// A name of spaces alone normalizes to absent, as does the empty name:
/// the folded input has no kept character, so no token survives.
pub proof fn lemma_normalize_name_blank(s: Seq<char>, sep: Seq<char>)
    requires
        forall|i| 0 <= i < s.len() ==> #[trigger] s[i] == ' ',
    ensures
        spec_normalize_name(s, sep) is None,
{
    if s.len() > 0 {
        lemma_ascii_seq(s);
        lemma_fold_ascii(s);
        let f = spec_fold(s);
        assert(f == spec_ascii_lower(s));
        assert forall|i| 0 <= i < f.len() implies spec_action(Mode::Name, #[trigger] f[i])
            != crate::unicode::CategoryAction::Keep by {
            assert(f[i] == spec_ascii_lower_char(s[i]));
            assert(f[i] == ' ');
        }
        lemma_tokens_none(Mode::Name, f, 1);
    }
}

/// Normalize a name: case-fold it, tokenize it in name mode with minimum
/// token length one, and join the tokens with the separator; absent when no
/// usable result remains. With the single-space separator the result is a
/// fixed point: re-normalizing it yields it again.
pub fn normalize_name(name: &str, sep: &str) -> (r: Option<String>)
    ensures
        r.deep_view() == spec_normalize_name(name@, sep@),
        sep@ == seq![' '] ==> (r matches Some(x) ==> spec_normalize_name(x@, seq![' ']) == Some(
            x@,
        )),
{
    if name.is_empty() {
        return None;
    }
    let pre = prenormalize_name(name);
    let toks = tokenize_name(pre.as_str(), 1);
    if toks.len() == 0 {
        return None;
    }
    let joined = join_strings(&toks, sep);
    if joined.as_str().is_empty() {
        None
    } else {
        proof {
            if sep@ == seq![' '] {
                lemma_normalize_joined_fixed(name@, pre@, toks.deep_view(), joined@);
            }
        }
        Some(joined)
    }
}

/// Helper for the fixed point of [`normalize_name`]: the joined result of a
/// fold-and-tokenize round, with the single-space separator, normalizes to
/// itself.
proof fn lemma_normalize_joined_fixed(s: Seq<char>, f: Seq<char>, toks: Seq<Seq<char>>, y: Seq<char>)
    requires
        f == spec_fold(s),
        forall|j| 0 <= j < f.len() ==> spec_fold_char(#[trigger] f[j]) == seq![f[j]],
        toks == spec_tokens(Mode::Name, f, 1),
        toks.len() != 0,
        y == spec_join(toks, seq![' ']),
        y.len() != 0,
    ensures
        spec_normalize_name(y, seq![' ']) == Some(y),
{
    let p = |c: char| spec_fold_char(c) == seq![c];
    lemma_tokens_wf(Mode::Name, f, 1);
    lemma_tokens_chars(Mode::Name, f, Seq::empty(), 1, p);
    assert(p(' '));
    lemma_join_chars(toks, seq![' '], p);
    lemma_fold_fixed(y);
    assert(spec_action(Mode::Name, ' ') == crate::unicode::CategoryAction::Whitespace);
    lemma_tokens_of_join(Mode::Name, toks, ' ');
    assert(spec_tokens(Mode::Name, spec_fold(y), 1) == toks);
}

} // verus!
