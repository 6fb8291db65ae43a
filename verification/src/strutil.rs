//! Small string helpers the engine's parsing is built on: splitting on a
//! separator character and replacing one character by another, each with an
//! exact specification over character sequences.

use vstd::prelude::*;
use vstd::string::*;

verus! {

/// Splits a character sequence at every occurrence of `sep`, keeping empty
/// segments, as the parts between separators in order. A sequence with no
/// separator yields one part; a trailing separator yields a trailing empty
/// part.
pub open spec fn split_all(s: Seq<char>, sep: char) -> Seq<Seq<char>>
    decreases s.len(),
{
    if s.len() == 0 {
        seq![Seq::<char>::empty()]
    } else if s[0] == sep {
        seq![Seq::<char>::empty()] + split_all(s.drop_first(), sep)
    } else {
        let rest = split_all(s.drop_first(), sep);
        seq![seq![s[0]] + rest[0]] + rest.drop_first()
    }
}

/// The result of a character replacement: every `from` becomes `to`, all
/// other characters stay.
pub open spec fn replace_char(s: Seq<char>, from: char, to: char) -> Seq<char> {
    s.map_values(|c: char| if c == from { to } else { c })
}

/// Splitting always yields at least one part.
pub proof fn lemma_split_all_len(s: Seq<char>, sep: char)
    ensures
        split_all(s, sep).len() >= 1,
    decreases s.len(),
{
    if s.len() == 0 {
    } else {
        lemma_split_all_len(s.drop_first(), sep);
    }
}

/// A sequence without the separator splits into itself alone.
pub proof fn lemma_split_all_no_sep(s: Seq<char>, sep: char)
    requires
        forall|j: int| 0 <= j < s.len() ==> s[j] != sep,
    ensures
        split_all(s, sep) == seq![s],
    decreases s.len(),
{
    if s.len() == 0 {
        assert(split_all(s, sep) =~~= seq![s]);
    } else {
        lemma_split_all_no_sep(s.drop_first(), sep);
        lemma_split_all_len(s.drop_first(), sep);
        assert(seq![s[0]] + split_all(s.drop_first(), sep)[0] =~= s);
        assert(split_all(s, sep) =~~= seq![s]);
    }
}

/// Peeling the first separator: if the first occurrence of `sep` is at `i`,
/// the split is the prefix before `i` followed by the split of what comes
/// after `i`.
pub proof fn lemma_split_all_peel(s: Seq<char>, sep: char, i: int)
    requires
        0 <= i < s.len(),
        s[i] == sep,
        forall|j: int| 0 <= j < i ==> s[j] != sep,
    ensures
        split_all(s, sep) == seq![s.take(i)] + split_all(s.skip(i + 1), sep),
    decreases i,
{
    if i == 0 {
        assert(s.take(0) =~= Seq::<char>::empty());
        assert(s.skip(1) =~= s.drop_first());
        assert(split_all(s, sep) =~~= seq![s.take(0)] + split_all(s.skip(1), sep));
    } else {
        let d = s.drop_first();
        assert(d[i - 1] == sep);
        assert(forall|j: int| 0 <= j < i - 1 ==> d[j] != sep);
        lemma_split_all_peel(d, sep, i - 1);
        lemma_split_all_len(d.skip(i), sep);
        let rest = split_all(d, sep);
        assert(rest[0] == d.take(i - 1));
        assert(rest.drop_first() =~= split_all(d.skip(i), sep));
        assert(d.skip(i) =~= s.skip(i + 1));
        assert(seq![s[0]] + d.take(i - 1) =~= s.take(i));
        assert(split_all(s, sep) =~~= seq![s.take(i)] + split_all(s.skip(i + 1), sep));
    }
}

/// Relies on `String::from` for `char`: the returned string holds exactly
/// that one character.
#[verifier::external_body]
pub fn char_to_string(c: char) -> (r: String)
    ensures
        r@ == seq![c],
{
    String::from(c)
}

/// Splits a string at every occurrence of `sep`, keeping empty segments, as
/// `split_all` describes.
pub fn split_on_char(s: &str, sep: char) -> (parts: Vec<String>)
    ensures
        parts@.map_values(|p: String| p@) == split_all(s@, sep),
        parts@.len() >= 1,
{
    let n = s.unicode_len();
    let mut parts: Vec<String> = Vec::new();
    let mut start: usize = 0;
    let mut i: usize = 0;
    proof {
        assert(s@.skip(0) =~= s@);
        assert(parts@.map_values(|p: String| p@) + split_all(s@, sep) =~~= split_all(s@, sep));
    }
    while i < n
        invariant
            n == s@.len(),
            start <= i <= n,
            forall|j: int| start <= j < i ==> s@[j] != sep,
            split_all(s@, sep) == parts@.map_values(|p: String| p@) + split_all(
                s@.skip(start as int),
                sep,
            ),
        decreases n - i,
    {
        if s.get_char(i) == sep {
            let part = s.substring_char(start, i).to_owned();
            proof {
                let tail = s@.skip(start as int);
                assert(tail[i - start as int] == sep);
                lemma_split_all_peel(tail, sep, i - start as int);
                assert(tail.take(i - start as int) =~= s@.subrange(start as int, i as int));
                assert(tail.skip(i - start as int + 1) =~= s@.skip(i as int + 1));
            }
            let ghost old_parts = parts@;
            parts.push(part);
            proof {
                assert(parts@.map_values(|p: String| p@) =~= old_parts.map_values(|p: String| p@)
                    + seq![part@]);
                assert(old_parts.map_values(|p: String| p@) + (seq![part@] + split_all(
                    s@.skip(i as int + 1),
                    sep,
                )) =~~= parts@.map_values(|p: String| p@) + split_all(s@.skip(i as int + 1), sep));
            }
            start = i + 1;
        }
        i = i + 1;
    }
    let last = s.substring_char(start, n).to_owned();
    proof {
        assert(s@.skip(start as int) =~= s@.subrange(start as int, n as int));
        lemma_split_all_no_sep(s@.skip(start as int), sep);
    }
    let ghost old_parts = parts@;
    parts.push(last);
    proof {
        assert(parts@.map_values(|p: String| p@) =~= old_parts.map_values(|p: String| p@)
            + seq![last@]);
        assert(old_parts.map_values(|p: String| p@) + seq![last@] =~~= split_all(s@, sep));
    }
    parts
}

/// Copies a list of strings, value for value.
pub fn clone_strings(v: &Vec<String>) -> (r: Vec<String>)
    ensures
        r@ == v@,
{
    let mut r: Vec<String> = Vec::new();
    let mut i: usize = 0;
    while i < v.len()
        invariant
            i <= v@.len(),
            r@ == v@.take(i as int),
        decreases v@.len() - i,
    {
        r.push(v[i].clone());
        i = i + 1;
        proof {
            assert(r@ =~= v@.take(i as int));
        }
    }
    proof {
        assert(v@.take(v@.len() as int) =~= v@);
    }
    r
}

/// Replaces every occurrence of `from` by `to`.
pub fn replace_char_str(s: &str, from: char, to: char) -> (r: String)
    ensures
        r@ == replace_char(s@, from, to),
{
    let n = s.unicode_len();
    let mut r = String::new();
    let mut i: usize = 0;
    while i < n
        invariant
            n == s@.len(),
            i <= n,
            r@ =~= s@.take(i as int).map_values(|c: char| if c == from { to } else { c }),
        decreases n - i,
    {
        let c = s.get_char(i);
        let piece = char_to_string(if c == from { to } else { c });
        r.append(piece.as_str());
        i = i + 1;
        proof {
            assert(r@ =~= s@.take(i as int).map_values(
                |c: char| if c == from { to } else { c },
            ));
        }
    }
    proof {
        assert(s@.take(n as int) =~= s@);
    }
    r
}

} // verus!
