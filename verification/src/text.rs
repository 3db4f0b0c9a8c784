//! Character-level text operations the bot needs: substring search (for
//! the authenticated-session marker) and splitting on a delimiter (for
//! the positional-offset extraction), each verified against a
//! sequence-level specification.

use vstd::prelude::*;

verus! {

/// `pat` occurs in `s` starting at position `i`.
pub open spec fn occurs_at(s: Seq<char>, pat: Seq<char>, i: int) -> bool {
    0 <= i && i + pat.len() <= s.len() && s.subrange(i, i + pat.len() as int) == pat
}

/// `pat` occurs somewhere in `s`.
pub open spec fn contains_seq(s: Seq<char>, pat: Seq<char>) -> bool {
    exists|i: int| occurs_at(s, pat, i)
}

/// The views of a sequence of strings.
pub open spec fn views_of(strings: Seq<String>) -> Seq<Seq<char>> {
    strings.map_values(|p: String| p@)
}

/// Splitting a character sequence on a separator, front to back, the
/// way `str::split` does: a separator between every two pieces, so a
/// leading, trailing or doubled separator yields an empty piece.
pub open spec fn split_on(s: Seq<char>, sep: char) -> Seq<Seq<char>>
    decreases s.len(),
{
    if s.len() == 0 {
        seq![Seq::<char>::empty()]
    } else if s[0] == sep {
        seq![Seq::<char>::empty()] + split_on(s.skip(1), sep)
    } else {
        let rest = split_on(s.skip(1), sep);
        seq![seq![s[0]] + rest[0]] + rest.skip(1)
    }
}

/// A split always has at least one piece.
pub proof fn lemma_split_on_len(s: Seq<char>, sep: char)
    ensures
        split_on(s, sep).len() >= 1,
    decreases s.len(),
{
    if s.len() == 0 {
    } else if s[0] == sep {
        lemma_split_on_len(s.skip(1), sep);
    } else {
        lemma_split_on_len(s.skip(1), sep);
    }
}

/// A sequence free of the separator splits into just itself.
pub proof fn lemma_split_on_no_sep(s: Seq<char>, sep: char)
    requires
        forall|k: int| 0 <= k < s.len() ==> s[k] != sep,
    ensures
        split_on(s, sep) == seq![s],
    decreases s.len(),
{
    if s.len() == 0 {
        assert(s =~= Seq::<char>::empty());
        assert(split_on(s, sep) =~= seq![s]);
    } else {
        lemma_split_on_no_sep(s.skip(1), sep);
        lemma_split_on_len(s.skip(1), sep);
        assert(seq![s[0]] + s.skip(1) =~= s);
        assert(split_on(s, sep) =~= seq![s]);
    }
}

/// Splitting a sequence that starts with a separator-free piece, then a
/// separator, then a remainder: the piece comes off the front and the
/// remainder is split on its own.
pub proof fn lemma_split_on_step(piece: Seq<char>, sep: char, rest: Seq<char>)
    requires
        forall|k: int| 0 <= k < piece.len() ==> piece[k] != sep,
    ensures
        split_on(piece + seq![sep] + rest, sep) == seq![piece] + split_on(rest, sep),
    decreases piece.len(),
{
    let s = piece + seq![sep] + rest;
    if piece.len() == 0 {
        assert(s[0] == sep);
        assert(s.skip(1) =~= rest);
        assert(piece =~= Seq::<char>::empty());
        assert(split_on(s, sep) =~= seq![piece] + split_on(rest, sep));
    } else {
        assert(s[0] == piece[0]);
        assert(s.skip(1) =~= piece.skip(1) + seq![sep] + rest);
        lemma_split_on_step(piece.skip(1), sep, rest);
        lemma_split_on_len(rest, sep);
        let inner = seq![piece.skip(1)] + split_on(rest, sep);
        assert(split_on(s.skip(1), sep) == inner);
        assert(inner[0] == piece.skip(1));
        assert(inner.skip(1) =~= split_on(rest, sep));
        assert(seq![s[0]] + piece.skip(1) =~= piece);
        assert(split_on(s, sep) =~= seq![piece] + split_on(rest, sep));
    }
}

/// Whether `pat` matches the characters of `s` starting at `i`.
fn matches_at(s: &str, pat: &str, i: usize) -> (found: bool)
    requires
        i + pat@.len() <= s@.len(),
    ensures
        found == occurs_at(s@, pat@, i as int),
{
    let s_len = s.unicode_len();
    let pat_len = pat.unicode_len();
    let mut j: usize = 0;
    while j < pat_len
        invariant
            j <= pat_len,
            pat_len == pat@.len(),
            s_len == s@.len(),
            i + pat_len <= s_len,
            forall|k: int| 0 <= k < j ==> s@[i + k] == pat@[k],
        decreases pat_len - j,
    {
        if s.get_char(i + j) != pat.get_char(j) {
            proof {
                if occurs_at(s@, pat@, i as int) {
                    assert(s@.subrange(i as int, i + pat@.len() as int)[j as int] == s@[i + j]);
                }
            }
            return false;
        }
        j += 1;
    }
    proof {
        assert(s@.subrange(i as int, i + pat@.len() as int) =~= pat@);
    }
    true
}

/// Whether `pat` occurs anywhere in `s`.
pub fn str_contains(s: &str, pat: &str) -> (found: bool)
    ensures
        found == contains_seq(s@, pat@),
{
    let s_len = s.unicode_len();
    let pat_len = pat.unicode_len();
    if pat_len == 0 {
        proof {
            assert(s@.subrange(0, 0) =~= pat@);
            assert(occurs_at(s@, pat@, 0));
        }
        return true;
    }
    if pat_len > s_len {
        return false;
    }
    let mut i: usize = 0;
    while i <= s_len - pat_len
        invariant
            pat_len == pat@.len(),
            s_len == s@.len(),
            1 <= pat_len <= s_len,
            i <= s_len - pat_len + 1,
            forall|k: int| 0 <= k < i ==> !occurs_at(s@, pat@, k),
        decreases s_len - i,
    {
        if matches_at(s, pat, i) {
            return true;
        }
        i += 1;
    }
    false
}

/// Split `s` on the separator character, as `str::split` does.
pub fn split_str(s: &str, sep: char) -> (parts: Vec<String>)
    ensures
        views_of(parts@) == split_on(s@, sep),
{
    let s_len = s.unicode_len();
    let mut parts: Vec<String> = Vec::new();
    let mut start: usize = 0;
    let mut i: usize = 0;
    proof {
        assert(s@.skip(0) =~= s@);
        assert(views_of(parts@) + split_on(s@, sep) =~= split_on(s@, sep));
    }
    while i < s_len
        invariant
            start <= i <= s_len,
            s_len == s@.len(),
            forall|k: int| start <= k < i ==> s@[k] != sep,
            split_on(s@, sep) == views_of(parts@) + split_on(s@.skip(start as int), sep),
        decreases s_len - i,
    {
        if s.get_char(i) == sep {
            let ghost old_parts = parts@;
            let ghost piece = s@.subrange(start as int, i as int);
            parts.push(String::from_str(s.substring_char(start, i)));
            proof {
                assert(s@.skip(start as int) =~= piece + seq![sep] + s@.skip(i + 1));
                lemma_split_on_step(piece, sep, s@.skip(i + 1));
                assert(views_of(parts@) =~= views_of(old_parts) + seq![piece]);
                assert(views_of(parts@) + split_on(s@.skip(i + 1), sep) =~= views_of(
                    old_parts,
                ) + split_on(s@.skip(start as int), sep));
            }
            start = i + 1;
        }
        i += 1;
    }
    let ghost old_parts = parts@;
    let ghost piece = s@.skip(start as int);
    parts.push(String::from_str(s.substring_char(start, s_len)));
    proof {
        assert(piece =~= s@.subrange(start as int, s_len as int));
        lemma_split_on_no_sep(piece, sep);
        assert(views_of(parts@) =~= views_of(old_parts) + seq![piece]);
        assert(views_of(parts@) =~= split_on(s@, sep));
    }
    parts
}

} // verus!
