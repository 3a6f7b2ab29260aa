//! The shared tokenizer state machine: it consumes code points in order,
//! appends kept characters to an open token, drops skipped characters, and
//! flushes the open token at every boundary character and at the end of the
//! input. The machine itself is mode-agnostic; the mode only selects the
//! classifier.

use vstd::prelude::*;

verus! {

use crate::classify::{Mode, classify, spec_action};
use crate::unicode::CategoryAction;

/// The tokens that remain to be emitted when `s` is still to be consumed and
/// `buf` is the currently open token: kept characters extend `buf`, boundary
/// characters flush it when it is non-empty and reaches the minimum length,
/// and the end of the input flushes it the same way. An empty open token is
/// never emitted, whatever the minimum.
pub open spec fn spec_tokens_rec(mode: Mode, s: Seq<char>, buf: Seq<char>, min: nat) -> Seq<
    Seq<char>,
>
    decreases s.len(),
{
    if s.len() == 0 {
        if buf.len() > 0 && buf.len() >= min {
            seq![buf]
        } else {
            Seq::empty()
        }
    } else {
        match spec_action(mode, s[0]) {
            CategoryAction::Keep => spec_tokens_rec(mode, s.drop_first(), buf.push(s[0]), min),
            CategoryAction::Skip => spec_tokens_rec(mode, s.drop_first(), buf, min),
            CategoryAction::Whitespace => if buf.len() > 0 && buf.len() >= min {
                seq![buf] + spec_tokens_rec(mode, s.drop_first(), Seq::empty(), min)
            } else {
                spec_tokens_rec(mode, s.drop_first(), Seq::empty(), min)
            },
        }
    }
}

/// The ordered tokens of a character sequence under a mode, keeping only
/// tokens of at least `min` characters.
pub open spec fn spec_tokens(mode: Mode, s: Seq<char>, min: nat) -> Seq<Seq<char>> {
    spec_tokens_rec(mode, s, Seq::empty(), min)
}

/// Tokenize a character sequence under a mode, keeping only tokens of at
/// least `min` characters.
pub fn tokenize_chars(mode: Mode, text: &Vec<char>, min: usize) -> (r: Vec<Vec<char>>)
    ensures
        r.deep_view() == spec_tokens(mode, text@, min as nat),
{
    let mut tokens: Vec<Vec<char>> = Vec::new();
    let mut buf: Vec<char> = Vec::new();
    let mut i: usize = 0;
    proof {
        assert(text@.skip(0) =~= text@);
        assert(tokens.deep_view() + spec_tokens_rec(mode, text@, buf@, min as nat)
            =~~= spec_tokens_rec(mode, text@, buf@, min as nat));
    }
    while i < text.len()
        invariant
            0 <= i <= text@.len(),
            spec_tokens(mode, text@, min as nat) == tokens.deep_view() + spec_tokens_rec(
                mode,
                text@.skip(i as int),
                buf@,
                min as nat,
            ),
        decreases text@.len() - i,
    {
        let ghost toks0 = tokens.deep_view();
        let ghost buf0 = buf@;
        let ghost rest = text@.skip(i as int);
        proof {
            assert(rest[0] == text@[i as int]);
            assert(rest.drop_first() =~= text@.skip(i + 1));
        }
        let c = text[i];
        match classify(mode, c) {
            CategoryAction::Keep => {
                buf.push(c);
            },
            CategoryAction::Skip => {},
            CategoryAction::Whitespace => {
                if buf.len() > 0 && buf.len() >= min {
                    tokens.push(buf);
                    buf = Vec::new();
                    proof {
                        assert(tokens.deep_view() =~~= toks0.push(buf0));
                        assert(toks0 + (seq![buf0] + spec_tokens_rec(
                            mode,
                            rest.drop_first(),
                            Seq::empty(),
                            min as nat,
                        )) =~~= toks0.push(buf0) + spec_tokens_rec(
                            mode,
                            rest.drop_first(),
                            Seq::empty(),
                            min as nat,
                        ));
                    }
                } else {
                    buf.clear();
                }
            },
        }
        i += 1;
    }
    proof {
        assert(text@.skip(text@.len() as int) =~= Seq::<char>::empty());
    }
    if buf.len() > 0 && buf.len() >= min {
        let ghost toks0 = tokens.deep_view();
        let ghost buf0 = buf@;
        tokens.push(buf);
        proof {
            assert(tokens.deep_view() =~~= toks0.push(buf0));
            assert(toks0 + seq![buf0] =~~= toks0.push(buf0));
        }
    } else {
        proof {
            assert(tokens.deep_view() + Seq::<Seq<char>>::empty() =~~= tokens.deep_view());
        }
    }
    tokens
}

/// Every token the machine emits is non-empty and has at least the minimum
/// length, and no character of a token resolves to `Skip` or `Whitespace`
/// under the mode.
pub proof fn lemma_tokens_wf(mode: Mode, s: Seq<char>, min: nat)
    ensures
        forall|k|
            0 <= k < spec_tokens(mode, s, min).len() ==> {
                let t = #[trigger] spec_tokens(mode, s, min)[k];
                t.len() >= min && t.len() >= 1 && (forall|j|
                    0 <= j < t.len() ==> spec_action(mode, #[trigger] t[j])
                        == CategoryAction::Keep)
            },
{
    lemma_tokens_rec_wf(mode, s, Seq::empty(), min);
}

/// Helper for [`lemma_tokens_wf`], generalized over the open token: if every
/// character of the open token is kept under the mode, the same holds of
/// every emitted token.
proof fn lemma_tokens_rec_wf(mode: Mode, s: Seq<char>, buf: Seq<char>, min: nat)
    requires
        forall|j| 0 <= j < buf.len() ==> spec_action(mode, #[trigger] buf[j]) == CategoryAction::Keep,
    ensures
        forall|k|
            0 <= k < spec_tokens_rec(mode, s, buf, min).len() ==> {
                let t = #[trigger] spec_tokens_rec(mode, s, buf, min)[k];
                t.len() >= min && t.len() >= 1 && (forall|j|
                    0 <= j < t.len() ==> spec_action(mode, #[trigger] t[j])
                        == CategoryAction::Keep)
            },
    decreases s.len(),
{
    if s.len() == 0 {
    } else {
        match spec_action(mode, s[0]) {
            CategoryAction::Keep => {
                lemma_tokens_rec_wf(mode, s.drop_first(), buf.push(s[0]), min);
            },
            CategoryAction::Skip => {
                lemma_tokens_rec_wf(mode, s.drop_first(), buf, min);
            },
            CategoryAction::Whitespace => {
                lemma_tokens_rec_wf(mode, s.drop_first(), Seq::empty(), min);
            },
        }
    }
}

/// Consuming a run of kept characters only moves the run into the open
/// token.
pub proof fn lemma_tokens_rec_keep(
    mode: Mode,
    t: Seq<char>,
    rest: Seq<char>,
    buf: Seq<char>,
    min: nat,
)
    requires
        forall|j| 0 <= j < t.len() ==> spec_action(mode, #[trigger] t[j]) == CategoryAction::Keep,
    ensures
        spec_tokens_rec(mode, t + rest, buf, min) == spec_tokens_rec(mode, rest, buf + t, min),
    decreases t.len(),
{
    if t.len() == 0 {
        assert(t + rest =~= rest);
        assert(buf + t =~= buf);
    } else {
        assert((t + rest)[0] == t[0]);
        assert((t + rest).drop_first() =~= t.drop_first() + rest);
        assert forall|j| 0 <= j < t.drop_first().len() implies spec_action(
            mode,
            #[trigger] t.drop_first()[j],
        ) == CategoryAction::Keep by {
            assert(t.drop_first()[j] == t[j + 1]);
        }
        lemma_tokens_rec_keep(mode, t.drop_first(), rest, buf.push(t[0]), min);
        assert(buf.push(t[0]) + t.drop_first() =~= buf + t);
    }
}

/// Tokenizing the join of well-formed tokens gives those tokens back: the
/// separator breaks exactly at the joins, every token survives the minimum
/// length of one, and nothing inside a token breaks it.
pub proof fn lemma_tokens_of_join(mode: Mode, toks: Seq<Seq<char>>, sep: char)
    requires
        spec_action(mode, sep) == CategoryAction::Whitespace,
        forall|k| 0 <= k < toks.len() ==> #[trigger] toks[k].len() >= 1,
        forall|k, j|
            0 <= k < toks.len() && 0 <= j < toks[k].len() ==> spec_action(
                mode,
                #[trigger] toks[k][j],
            ) == CategoryAction::Keep,
    ensures
        spec_tokens(mode, crate::text::spec_join(toks, seq![sep]), 1) == toks,
    decreases toks.len(),
{
    let j = crate::text::spec_join(toks, seq![sep]);
    if toks.len() == 0 {
        assert(spec_tokens_rec(mode, j, Seq::empty(), 1) =~= Seq::<Seq<char>>::empty());
    } else if toks.len() == 1 {
        assert(j == toks[0]);
        assert(j =~= toks[0] + Seq::<char>::empty());
        lemma_tokens_rec_keep(mode, toks[0], Seq::empty(), Seq::empty(), 1);
        assert(Seq::<char>::empty() + toks[0] =~= toks[0]);
        assert(spec_tokens_rec(mode, Seq::empty(), toks[0], 1) == seq![toks[0]]);
        assert(seq![toks[0]] =~= toks);
    } else {
        let tail = toks.drop_first();
        let jt = crate::text::spec_join(tail, seq![sep]);
        assert(j == toks[0] + seq![sep] + jt);
        assert(j =~= toks[0] + (seq![sep] + jt));
        lemma_tokens_rec_keep(mode, toks[0], seq![sep] + jt, Seq::empty(), 1);
        assert(Seq::<char>::empty() + toks[0] =~= toks[0]);
        // At the separator the open token is flushed.
        assert((seq![sep] + jt)[0] == sep);
        assert((seq![sep] + jt).drop_first() =~= jt);
        assert(spec_tokens_rec(mode, seq![sep] + jt, toks[0], 1) == seq![toks[0]]
            + spec_tokens_rec(mode, jt, Seq::empty(), 1));
        assert forall|k| 0 <= k < tail.len() implies #[trigger] tail[k].len() >= 1 by {
            assert(tail[k] == toks[k + 1]);
        }
        assert forall|k, l|
            0 <= k < tail.len() && 0 <= l < tail[k].len() implies spec_action(
            mode,
            #[trigger] tail[k][l],
        ) == CategoryAction::Keep by {
            assert(tail[k] == toks[k + 1]);
        }
        lemma_tokens_of_join(mode, tail, sep);
        assert(seq![toks[0]] + tail =~= toks);
    }
}

/// An input with no kept character yields no token at all.
pub proof fn lemma_tokens_none(mode: Mode, s: Seq<char>, min: nat)
    requires
        forall|i| 0 <= i < s.len() ==> spec_action(mode, #[trigger] s[i]) != CategoryAction::Keep,
    ensures
        spec_tokens(mode, s, min) == Seq::<Seq<char>>::empty(),
    decreases s.len(),
{
    if s.len() > 0 {
        let rest = s.drop_first();
        assert forall|i| 0 <= i < rest.len() implies spec_action(mode, #[trigger] rest[i])
            != CategoryAction::Keep by {
            assert(rest[i] == s[i + 1]);
        }
        lemma_tokens_none(mode, rest, min);
    }
}

/// A property that holds of every input character and of every character of
/// the open token holds of every character of every emitted token.
pub proof fn lemma_tokens_chars(
    mode: Mode,
    s: Seq<char>,
    buf: Seq<char>,
    min: nat,
    p: spec_fn(char) -> bool,
)
    requires
        forall|i| 0 <= i < s.len() ==> p(#[trigger] s[i]),
        forall|i| 0 <= i < buf.len() ==> p(#[trigger] buf[i]),
    ensures
        forall|k, j|
            0 <= k < spec_tokens_rec(mode, s, buf, min).len() && 0 <= j < spec_tokens_rec(
                mode,
                s,
                buf,
                min,
            )[k].len() ==> p(#[trigger] spec_tokens_rec(mode, s, buf, min)[k][j]),
    decreases s.len(),
{
    if s.len() == 0 {
        if buf.len() > 0 && buf.len() >= min {
            let res = spec_tokens_rec(mode, s, buf, min);
            assert forall|k, j| 0 <= k < res.len() && 0 <= j < res[k].len() implies p(
                #[trigger] res[k][j],
            ) by {
                assert(res[0] == buf);
            }
        }
    } else {
        let rest = s.drop_first();
        assert forall|i| 0 <= i < rest.len() implies p(#[trigger] rest[i]) by {
            assert(rest[i] == s[i + 1]);
        }
        match spec_action(mode, s[0]) {
            CategoryAction::Keep => {
                assert forall|i| 0 <= i < buf.push(s[0]).len() implies p(
                    #[trigger] buf.push(s[0])[i],
                ) by {
                    if i < buf.len() {
                        assert(buf.push(s[0])[i] == buf[i]);
                    } else {
                        assert(buf.push(s[0])[i] == s[0]);
                    }
                }
                lemma_tokens_chars(mode, rest, buf.push(s[0]), min, p);
                assert(spec_tokens_rec(mode, s, buf, min) == spec_tokens_rec(
                    mode,
                    rest,
                    buf.push(s[0]),
                    min,
                ));
            },
            CategoryAction::Skip => {
                lemma_tokens_chars(mode, rest, buf, min, p);
                assert(spec_tokens_rec(mode, s, buf, min) == spec_tokens_rec(
                    mode,
                    rest,
                    buf,
                    min,
                ));
            },
            CategoryAction::Whitespace => {
                lemma_tokens_chars(mode, rest, Seq::empty(), min, p);
                if !(buf.len() > 0 && buf.len() >= min) {
                    assert(spec_tokens_rec(mode, s, buf, min) == spec_tokens_rec(
                        mode,
                        rest,
                        Seq::empty(),
                        min,
                    ));
                }
                if buf.len() > 0 && buf.len() >= min {
                    let res = spec_tokens_rec(mode, s, buf, min);
                    let tail = spec_tokens_rec(mode, rest, Seq::empty(), min);
                    assert forall|k, j|
                        0 <= k < res.len() && 0 <= j < res[k].len() implies p(
                        #[trigger] res[k][j],
                    ) by {
                        if k == 0 {
                            assert(res[0] == buf);
                        } else {
                            assert(res[k] == tail[k - 1]);
                        }
                    }
                }
            },
        }
    }
}

} // verus!
