//! Address normalization: lowercase the input, tokenize it in address mode,
//! optionally latinize each token, join the surviving tokens with a single
//! space, and gate the result on a minimum byte length.

use vstd::prelude::*;

verus! {

use vstd::utf8::{encode_utf8, is_ascii_chars};
use crate::ascii::{
    lemma_ascii_lower_char_stable,
    lemma_ascii_seq,
    spec_ascii_lower,
    spec_ascii_lower_char,
    spec_is_ascii_char,
};
use crate::classify::{Mode, spec_action};
use crate::text::{join_strings, lemma_join_chars, spec_join, str_chars, strings_of_tokens};
use crate::tokenize::{
    lemma_tokens_chars,
    lemma_tokens_of_join,
    lemma_tokens_wf,
    spec_tokens,
    tokenize_chars,
};
use crate::translit::{ascii_text, spec_ascii_text};

/// Unicode lowercasing of a character sequence outside the ASCII range.
pub uninterp spec fn lower_of(s: Seq<char>) -> Seq<char>;

/// Relies on str::to_lowercase (the Unicode Lowercase mapping): the result
/// depends on the input characters alone, and its ASCII fast path maps pure
/// ASCII text by the ASCII lowercase map, one character for one.
pub assume_specification[ str::to_lowercase ](s: &str) -> (r: String)
    ensures
        r@ == lower_of(s@),
        is_ascii_chars(s@) ==> r@ == spec_ascii_lower(s@),
;

/// Unicode lowercasing of any character sequence: on pure ASCII text it is
/// the ASCII lowercase map, elsewhere the named mapping.
pub open spec fn spec_lower(s: Seq<char>) -> Seq<char> {
    if is_ascii_chars(s) {
        spec_ascii_lower(s)
    } else {
        lower_of(s)
    }
}

/// The address-mode tokens of a text: the input is lowercased first, and
/// every non-empty token is kept.
pub open spec fn spec_address_tokens(s: Seq<char>) -> Seq<Seq<char>> {
    spec_tokens(Mode::Address, spec_lower(s), 1)
}

/// The non-empty parts, in order.
pub open spec fn spec_nonempty_parts(parts: Seq<Seq<char>>) -> Seq<Seq<char>> {
    parts.filter(|p: Seq<char>| p.len() > 0)
}

/// Each token mapped to its ASCII form, given the engine's result for the
/// token at the same position; a token with no engine result falls back as
/// [`spec_ascii_text`] says.
pub open spec fn spec_latinized(toks: Seq<Seq<char>>, es: Seq<Option<Seq<char>>>) -> Seq<
    Seq<char>,
> {
    Seq::new(
        toks.len(),
        |i: int|
            spec_ascii_text(
                toks[i],
                if 0 <= i < es.len() {
                    es[i]
                } else {
                    Option::<Seq<char>>::None
                },
            ),
    )
}

/// The final step of address normalization: drop parts that have become
/// empty, join the rest with a single space, and return the joined text
/// only when its UTF-8 byte length reaches the minimum.
pub open spec fn spec_finish_address(parts: Seq<Seq<char>>, min: nat) -> Option<Seq<char>> {
    let j = spec_join(spec_nonempty_parts(parts), seq![' ']);
    if encode_utf8(j).len() >= min {
        Some(j)
    } else {
        None
    }
}

/// The normalized form of an address: its address-mode tokens, each mapped
/// to its ASCII form by the per-token engine results when latinization is
/// requested, then joined and length-gated.
pub open spec fn spec_normalize_address(
    s: Seq<char>,
    latinize: bool,
    min: nat,
    es: Seq<Option<Seq<char>>>,
) -> Option<Seq<char>> {
    let toks = spec_address_tokens(s);
    let parts = if latinize {
        spec_latinized(toks, es)
    } else {
        toks
    };
    spec_finish_address(parts, min)
}

/// Appending one part keeps the old surviving parts, extended by the new
/// part exactly when it is non-empty.
pub proof fn lemma_nonempty_parts_push(s: Seq<Seq<char>>, x: Seq<char>)
    ensures
        spec_nonempty_parts(s.push(x)) == if x.len() > 0 {
            spec_nonempty_parts(s).push(x)
        } else {
            spec_nonempty_parts(s)
        },
{
    reveal(Seq::filter);
    assert(s.push(x).drop_last() =~= s);
    assert(s.push(x).last() == x);
}

/// When no part is empty, every part survives.
pub proof fn lemma_nonempty_parts_all(s: Seq<Seq<char>>)
    requires
        forall|k| 0 <= k < s.len() ==> #[trigger] s[k].len() > 0,
    ensures
        spec_nonempty_parts(s) == s,
    decreases s.len(),
{
    reveal(Seq::filter);
    if s.len() > 0 {
        lemma_nonempty_parts_all(s.drop_last());
        assert(spec_nonempty_parts(s) == s.drop_last().push(s.last()));
        assert(s.drop_last().push(s.last()) =~= s);
    }
}

/// Normalization is a fixed point on ASCII inputs: re-normalizing a
/// normalized address with the same parameters yields the same string,
/// whatever engine results either round was given, since ASCII tokens never
/// consult them. On inputs outside the ASCII range the lowercase mapping
/// and the category table are named, not stated, so nothing can be
/// concluded there.
pub proof fn lemma_normalize_address_idempotent(
    s: Seq<char>,
    latinize: bool,
    min: nat,
    es1: Seq<Option<Seq<char>>>,
    es2: Seq<Option<Seq<char>>>,
    y: Seq<char>,
)
    requires
        is_ascii_chars(s),
        spec_normalize_address(s, latinize, min, es1) == Some(y),
    ensures
        spec_normalize_address(y, latinize, min, es2) == Some(y),
{
    let p = |c: char| spec_is_ascii_char(c) && spec_ascii_lower_char(c) == c;
    let ls = spec_lower(s);
    assert forall|i| 0 <= i < ls.len() implies p(#[trigger] ls[i]) by {
        assert(ls[i] == spec_ascii_lower_char(s[i]));
        lemma_ascii_lower_char_stable(s[i]);
    }
    let toks = spec_address_tokens(s);
    lemma_tokens_wf(Mode::Address, ls, 1);
    lemma_tokens_chars(Mode::Address, ls, Seq::empty(), 1, p);
    // Latinization leaves pure-ASCII tokens unchanged, whatever the engine
    // results say.
    assert(spec_latinized(toks, es1) =~= toks) by {
        assert forall|k| 0 <= k < toks.len() implies #[trigger] spec_latinized(toks, es1)[k]
            == toks[k] by {
            lemma_ascii_seq(toks[k]);
        }
    }
    assert(spec_latinized(toks, es2) =~= toks) by {
        assert forall|k| 0 <= k < toks.len() implies #[trigger] spec_latinized(toks, es2)[k]
            == toks[k] by {
            lemma_ascii_seq(toks[k]);
        }
    }
    lemma_nonempty_parts_all(toks);
    assert(y == spec_join(toks, seq![' ']));
    // Every character of the joined result is ASCII and lowercase-stable.
    assert(p(' '));
    lemma_join_chars(toks, seq![' '], p);
    lemma_ascii_seq(y);
    assert(spec_lower(y) =~= y) by {
        assert forall|i| 0 <= i < y.len() implies #[trigger] spec_ascii_lower(y)[i] == y[i] by {
            assert(p(y[i]));
        }
    }
    // The second round re-tokenizes the joined result into the same tokens.
    assert(spec_action(Mode::Address, ' ') == crate::unicode::CategoryAction::Whitespace);
    lemma_tokens_of_join(Mode::Address, toks, ' ');
    assert(spec_address_tokens(y) == toks);
}

/// The address-mode tokens of a text, lowercased and split, as strings.
pub fn address_tokens(address: &str) -> (r: Vec<String>)
    ensures
        r.deep_view() == spec_address_tokens(address@),
{
    let lowered = address.to_lowercase();
    let chars = str_chars(lowered.as_str());
    let toks = tokenize_chars(Mode::Address, &chars, 1);
    strings_of_tokens(&toks)
}

/// Join the surviving parts with a single space and apply the byte-length
/// gate: parts that are empty are dropped first.
pub fn finish_address(parts: &Vec<String>, min_length: usize) -> (r: Option<String>)
    ensures
        r.deep_view() == spec_finish_address(parts.deep_view(), min_length as nat),
        r matches Some(x) ==> encode_utf8(x@).len() >= min_length,
{
    let mut kept: Vec<String> = Vec::new();
    let mut i: usize = 0;
    proof {
        assert(spec_nonempty_parts(parts.deep_view().take(0)) =~~= kept.deep_view()) by {
            reveal(Seq::filter);
        }
    }
    while i < parts.len()
        invariant
            0 <= i <= parts@.len(),
            parts.deep_view().len() == parts@.len(),
            kept.deep_view() == spec_nonempty_parts(parts.deep_view().take(i as int)),
        decreases parts@.len() - i,
    {
        let ghost d0 = kept.deep_view();
        let ghost prefix = parts.deep_view().take(i as int);
        proof {
            assert(parts.deep_view()[i as int] == parts@[i as int]@);
            lemma_nonempty_parts_push(prefix, parts.deep_view()[i as int]);
            assert(prefix.push(parts.deep_view()[i as int]) =~~= parts.deep_view().take(i + 1));
        }
        if !parts[i].as_str().is_empty() {
            kept.push(parts[i].clone());
            proof {
                assert(kept.deep_view() =~~= d0.push(parts.deep_view()[i as int]));
            }
        }
        i += 1;
    }
    proof {
        assert(parts.deep_view().take(parts@.len() as int) =~~= parts.deep_view());
    }
    let joined = join_strings(&kept, " ");
    proof {
        assert(" "@ =~= seq![' ']) by {
            reveal_strlit(" ");
        }
    }
    let byte_len = joined.as_str().as_bytes().len();
    proof {
        broadcast use vstd::slice::axiom_spec_len;

        assert(byte_len == encode_utf8(joined@).len());
    }
    if byte_len >= min_length {
        Some(joined)
    } else {
        None
    }
}

/// Normalize an address: lowercase it, tokenize it in address mode, map
/// each token to its ASCII form when latinization is requested, join the
/// surviving tokens with a single space, and return the result only when
/// its UTF-8 byte length reaches `min_length`. `engine_results` holds, per
/// token of [`address_tokens`] in order, what the host's transliteration
/// rule engine returned for that token; a host composes [`address_tokens`],
/// its engine, and this function. With no engine result a non-ASCII token
/// falls back to the placeholder form, as [`crate::translit::ascii_text`]
/// says. Without latinization `engine_results` is ignored.
pub fn normalize_address(
    address: &str,
    latinize: bool,
    min_length: usize,
    engine_results: &Vec<Option<String>>,
) -> (r: Option<String>)
    ensures
        r.deep_view() == spec_normalize_address(
            address@,
            latinize,
            min_length as nat,
            engine_results.deep_view(),
        ),
        r matches Some(x) ==> encode_utf8(x@).len() >= min_length,
{
    let ghost es = engine_results.deep_view();
    let toks = address_tokens(address);
    if latinize {
        let mut parts: Vec<String> = Vec::new();
        let mut i: usize = 0;
        proof {
            assert(es.len() == engine_results@.len());
            assert(parts.deep_view() =~~= spec_latinized(toks.deep_view(), es).take(0));
        }
        while i < toks.len()
            invariant
                0 <= i <= toks@.len(),
                toks.deep_view().len() == toks@.len(),
                toks.deep_view() == spec_address_tokens(address@),
                es == engine_results.deep_view(),
                es.len() == engine_results@.len(),
                parts.deep_view() == spec_latinized(toks.deep_view(), es).take(i as int),
            decreases toks@.len() - i,
        {
            let ghost d0 = parts.deep_view();
            let er: Option<String> = if i < engine_results.len() {
                match &engine_results[i] {
                    Some(t) => Some(t.clone()),
                    None => None,
                }
            } else {
                None
            };
            proof {
                if i < es.len() {
                    assert(es[i as int] == engine_results@[i as int].deep_view());
                }
                assert(er.deep_view() == if 0 <= i < es.len() {
                    es[i as int]
                } else {
                    Option::<Seq<char>>::None
                });
            }
            let p = ascii_text(toks[i].as_str(), er);
            parts.push(p);
            proof {
                assert(toks.deep_view()[i as int] == toks@[i as int]@);
                assert(parts.deep_view() =~~= d0.push(p@));
                assert(d0.push(p@) =~= spec_latinized(toks.deep_view(), es).take(i + 1));
            }
            i += 1;
        }
        proof {
            assert(spec_latinized(toks.deep_view(), es).take(toks@.len() as int)
                =~~= spec_latinized(toks.deep_view(), es));
        }
        finish_address(&parts, min_length)
    } else {
        finish_address(&toks, min_length)
    }
}

} // verus!
