//! Verified utilities on strings and character sequences: extracting the
//! characters of a string slice, rebuilding strings, and joining parts with
//! a separator.

use vstd::prelude::*;

verus! {

use vstd::std_specs::iter::IteratorSpec;

broadcast use vstd::string::axiom_spec_iter, vstd::string::next_postcondition;

/// Relies on String::push: appends the given character to the end of the
/// string.
pub assume_specification[ String::push ](s: &mut String, c: char)
    ensures
        final(s)@ == old(s)@.push(c),
;

/// The characters of a string slice, in order, as a vector.
pub fn str_chars(s: &str) -> (r: Vec<char>)
    ensures
        r@ == s@,
{
    let mut it = s.chars();
    let mut v: Vec<char> = Vec::new();
    proof {
        assert(it.remaining() == s@);
    }
    loop
        invariant
            it.obeys_prophetic_iter_laws(),
            it.decrease() is Some,
            v@ + it.remaining() == s@,
        ensures
            v@ == s@,
        decreases it.decrease()->0,
    {
        let ghost prev = it.remaining();
        let ghost pv = v@;
        match it.next() {
            Some(c) => {
                v.push(c);
                proof {
                    assert(pv.push(c) + prev.drop_first() =~= pv + prev);
                }
            },
            None => {
                proof {
                    assert(v@ =~= s@);
                }
                break ;
            },
        }
    }
    v
}

/// A string holding exactly the given characters, in order.
pub fn chars_to_string(v: &Vec<char>) -> (r: String)
    ensures
        r@ == v@,
{
    let mut s = String::new();
    let mut i: usize = 0;
    while i < v.len()
        invariant
            0 <= i <= v@.len(),
            s@ == v@.take(i as int),
        decreases v@.len() - i,
    {
        s.push(v[i]);
        proof {
            assert(v@.take(i as int).push(v@[i as int]) =~= v@.take(i + 1));
        }
        i += 1;
    }
    proof {
        assert(v@.take(v@.len() as int) =~= v@);
    }
    s
}

/// Each character-sequence token rebuilt as a string, in order.
pub fn strings_of_tokens(toks: &Vec<Vec<char>>) -> (r: Vec<String>)
    ensures
        r.deep_view() == toks.deep_view(),
{
    let mut out: Vec<String> = Vec::new();
    let mut i: usize = 0;
    while i < toks.len()
        invariant
            0 <= i <= toks@.len(),
            toks.deep_view().len() == toks@.len(),
            out.deep_view() == toks.deep_view().take(i as int),
        decreases toks@.len() - i,
    {
        let ghost d0 = out.deep_view();
        let part = chars_to_string(&toks[i]);
        out.push(part);
        proof {
            assert(out.deep_view() =~~= d0.push(toks.deep_view()[i as int]));
            assert(d0.push(toks.deep_view()[i as int]) =~~= toks.deep_view().take(i + 1));
        }
        i += 1;
    }
    proof {
        assert(toks.deep_view().take(toks@.len() as int) =~~= toks.deep_view());
    }
    out
}

/// The parts joined with the separator between consecutive parts: an empty
/// part list joins to the empty sequence.
pub open spec fn spec_join(parts: Seq<Seq<char>>, sep: Seq<char>) -> Seq<char>
    decreases parts.len(),
{
    if parts.len() == 0 {
        Seq::empty()
    } else if parts.len() == 1 {
        parts[0]
    } else {
        parts[0] + sep + spec_join(parts.drop_first(), sep)
    }
}

/// Joining one more part appends a separator (when anything precedes it)
/// and then the part.
pub proof fn lemma_join_push(parts: Seq<Seq<char>>, sep: Seq<char>, t: Seq<char>)
    ensures
        spec_join(parts.push(t), sep) == if parts.len() == 0 {
            t
        } else {
            spec_join(parts, sep) + sep + t
        },
    decreases parts.len(),
{
    if parts.len() == 0 {
        assert(spec_join(parts.push(t), sep) == parts.push(t)[0]);
    } else if parts.len() == 1 {
        assert(parts.push(t).drop_first() =~= seq![t]);
        assert(parts.push(t)[0] == parts[0]);
        assert(spec_join(seq![t], sep) == t);
        assert(spec_join(parts.push(t), sep) == parts[0] + sep + t);
    } else {
        lemma_join_push(parts.drop_first(), sep, t);
        assert(parts.push(t).drop_first() =~= parts.drop_first().push(t));
        assert(spec_join(parts.push(t), sep) == parts[0] + sep + (spec_join(
            parts.drop_first(),
            sep,
        ) + sep + t));
        assert(parts[0] + sep + (spec_join(parts.drop_first(), sep) + sep + t) =~= (parts[0] + sep
            + spec_join(parts.drop_first(), sep)) + sep + t);
    }
}

/// A property that holds of every character of every part and of every
/// character of the separator holds of every character of the join.
pub proof fn lemma_join_chars(parts: Seq<Seq<char>>, sep: Seq<char>, p: spec_fn(char) -> bool)
    requires
        forall|k, j|
            0 <= k < parts.len() && 0 <= j < parts[k].len() ==> p(#[trigger] parts[k][j]),
        forall|j| 0 <= j < sep.len() ==> p(#[trigger] sep[j]),
    ensures
        forall|j| 0 <= j < spec_join(parts, sep).len() ==> p(#[trigger] spec_join(parts, sep)[j]),
    decreases parts.len(),
{
    let jn = spec_join(parts, sep);
    if parts.len() == 0 {
    } else if parts.len() == 1 {
        assert forall|j| 0 <= j < jn.len() implies p(#[trigger] jn[j]) by {
            assert(jn[j] == parts[0][j]);
        }
    } else {
        let tail = parts.drop_first();
        assert forall|k, j|
            0 <= k < tail.len() && 0 <= j < tail[k].len() implies p(#[trigger] tail[k][j]) by {
            assert(tail[k] == parts[k + 1]);
        }
        lemma_join_chars(tail, sep, p);
        let jt = spec_join(tail, sep);
        assert forall|j| 0 <= j < jn.len() implies p(#[trigger] jn[j]) by {
            if j < parts[0].len() {
                assert(jn[j] == parts[0][j]);
            } else if j < parts[0].len() + sep.len() {
                assert(jn[j] == sep[j - parts[0].len()]);
            } else {
                assert(jn[j] == jt[j - parts[0].len() - sep.len()]);
            }
        }
    }
}

/// The parts joined with the separator, as a string.
pub fn join_strings(parts: &Vec<String>, sep: &str) -> (r: String)
    ensures
        r@ == spec_join(parts.deep_view(), sep@),
{
    let mut s = String::new();
    let mut i: usize = 0;
    while i < parts.len()
        invariant
            0 <= i <= parts@.len(),
            parts.deep_view().len() == parts@.len(),
            s@ == spec_join(parts.deep_view().take(i as int), sep@),
        decreases parts@.len() - i,
    {
        let ghost prefix = parts.deep_view().take(i as int);
        if i > 0 {
            s.append(sep);
        }
        s.append(parts[i].as_str());
        proof {
            lemma_join_push(prefix, sep@, parts.deep_view()[i as int]);
            assert(prefix.push(parts.deep_view()[i as int]) =~= parts.deep_view().take(i + 1));
            if i == 0 {
                assert(s@ =~= parts.deep_view()[0]);
            }
        }
        i += 1;
    }
    proof {
        assert(parts.deep_view().take(parts@.len() as int) =~= parts.deep_view());
    }
    s
}

} // verus!
