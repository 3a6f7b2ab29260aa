//! ASCII transliteration: the verified frame around a host-supplied
//! script-to-script rule engine. Already-ASCII text passes through
//! untouched; a usable engine result is taken as is; anything else falls
//! back to a deterministic placeholder mapping. The rule engine itself is a
//! host resource: a caller that owns one hands each engine result in as an
//! argument, and the result is checked here, so the output is ASCII-only
//! whatever the engine did.

use vstd::prelude::*;

verus! {

use vstd::utf8::is_ascii_chars;
use crate::ascii::{lemma_char_min, spec_is_ascii_char};
use crate::text::{chars_to_string, str_chars};

/// The deterministic fallback: ASCII characters pass through unchanged and
/// every other character becomes the placeholder `?`, one placeholder per
/// code point.
pub open spec fn spec_placeholder(t: Seq<char>) -> Seq<char> {
    t.map_values(|c: char| if spec_is_ascii_char(c) { c } else { '?' })
}

/// The ASCII form of a text, given an optional engine result for it:
/// already-ASCII text is returned unchanged, a pure-ASCII engine result is
/// taken as is, and otherwise the placeholder fallback applies.
pub open spec fn spec_ascii_text(t: Seq<char>, e: Option<Seq<char>>) -> Seq<char> {
    if is_ascii_chars(t) {
        t
    } else {
        match e {
            Some(s) => if is_ascii_chars(s) {
                s
            } else {
                spec_placeholder(t)
            },
            None => spec_placeholder(t),
        }
    }
}

/// Whatever the engine did, the ASCII form of a text is pure ASCII.
pub proof fn lemma_ascii_text_is_ascii(t: Seq<char>, e: Option<Seq<char>>)
    ensures
        is_ascii_chars(spec_ascii_text(t, e)),
{
    assert forall|i| 0 <= i < spec_placeholder(t).len() implies '\0' <= #[trigger] spec_placeholder(
        t,
    )[i] <= '\u{7f}' by {
        lemma_char_min(spec_placeholder(t)[i]);
        assert(spec_placeholder(t)[i] == if spec_is_ascii_char(t[i]) {
            t[i]
        } else {
            '?'
        });
    }
}

/// Map a text to the placeholder fallback form.
fn ascii_fallback(text: &str) -> (r: String)
    ensures
        r@ == spec_placeholder(text@),
{
    let chars = str_chars(text);
    let mut out: Vec<char> = Vec::new();
    let mut i: usize = 0;
    while i < chars.len()
        invariant
            0 <= i <= chars@.len(),
            chars@ == text@,
            out@ == spec_placeholder(text@.take(i as int)),
        decreases chars@.len() - i,
    {
        let c = chars[i];
        if c <= '\u{7f}' {
            out.push(c);
        } else {
            out.push('?');
        }
        proof {
            assert(out@ =~= spec_placeholder(text@.take(i + 1)));
        }
        i += 1;
    }
    proof {
        assert(text@.take(text@.len() as int) =~= text@);
        assert(out@ =~= spec_placeholder(text@));
    }
    chars_to_string(&out)
}

/// Transliterate a text to pure ASCII. `engine_result` is what the host's
/// rule engine returned for exactly this text, if the caller ran one; it is
/// only trusted after the check here. The result equals the input whenever
/// the input is already ASCII, and is pure ASCII in every case.
pub fn ascii_text(text: &str, engine_result: Option<String>) -> (r: String)
    ensures
        r@ == spec_ascii_text(text@, engine_result.deep_view()),
        is_ascii_chars(r@),
        is_ascii_chars(text@) ==> r@ == text@,
{
    let ghost e = engine_result.deep_view();
    proof {
        lemma_ascii_text_is_ascii(text@, e);
    }
    if text.is_ascii() {
        return text.to_owned();
    }
    match engine_result {
        Some(s) => {
            if s.is_ascii() {
                s
            } else {
                ascii_fallback(text)
            }
        },
        None => ascii_fallback(text),
    }
}

} // verus!
