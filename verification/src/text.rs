//! Sequences of characters: the searching, trimming and splitting that the
//! command grammar and the reply lines are defined by.
//!
//! Positions count characters, never bytes.

use vstd::prelude::*;

verus! {

/// `p` occurs in `s` starting at position `at`.
pub open spec fn occurs_at(s: Seq<char>, p: Seq<char>, at: int) -> bool {
    0 <= at && at + p.len() <= s.len() && s.subrange(at, at + p.len()) == p
}

/// `s` begins with `p`.
pub open spec fn has_prefix(s: Seq<char>, p: Seq<char>) -> bool {
    occurs_at(s, p, 0)
}

/// `p` occurs somewhere in `s`.
pub open spec fn contains(s: Seq<char>, p: Seq<char>) -> bool {
    exists|at: int| occurs_at(s, p, at)
}

/// The position of the first `c` in `s`, or the length of `s` where it holds none.
pub open spec fn first_index(s: Seq<char>, c: char) -> int
    decreases s.len(),
{
    if s.len() == 0 || s[0] == c {
        0
    } else {
        1 + first_index(s.skip(1), c)
    }
}

/// `s` without `p` at its beginning, once; `s` itself if it does not begin
/// with `p`.
pub open spec fn without_prefix(s: Seq<char>, p: Seq<char>) -> Seq<char> {
    if has_prefix(s, p) {
        s.skip(p.len() as int)
    } else {
        s
    }
}

/// `s` without every leading repetition of `p`. An empty `p` removes nothing.
pub open spec fn strip_leading(s: Seq<char>, p: Seq<char>) -> Seq<char>
    decreases s.len(),
{
    if p.len() > 0 && has_prefix(s, p) {
        strip_leading(s.skip(p.len() as int), p)
    } else {
        s
    }
}

/// The pieces of `s` between occurrences of `sep`, in order. There is always
/// one piece more than there are separators, so the empty sequence has one
/// empty piece and a trailing separator is followed by an empty piece.
pub open spec fn split_on(s: Seq<char>, sep: char) -> Seq<Seq<char>>
    decreases s.len(),
{
    let i = first_index(s, sep);
    if 0 <= i < s.len() {
        seq![s.take(i)] + split_on(s.skip(i + 1), sep)
    } else {
        seq![s]
    }
}

/// The pieces put together again, with `sep` between neighbours.
pub open spec fn join_with(pieces: Seq<Seq<char>>, sep: char) -> Seq<char>
    decreases pieces.len(),
{
    if pieces.len() == 0 {
        Seq::empty()
    } else if pieces.len() == 1 {
        pieces[0]
    } else {
        pieces[0] + seq![sep] + join_with(pieces.skip(1), sep)
    }
}

/// The views of a sequence of strings.
pub open spec fn views_of(strings: Seq<String>) -> Seq<Seq<char>> {
    strings.map_values(|s: String| s@)
}

/// The view of an optional string.
pub open spec fn optional_view(text: Option<String>) -> Option<Seq<char>> {
    match text {
        Some(s) => Some(s@),
        None => None,
    }
}

/// `first_index` is the one position that is within `s` or at its end, has no
/// `c` before it, and holds `c` unless it is the end.
pub proof fn lemma_first_index(s: Seq<char>, c: char)
    ensures
        0 <= first_index(s, c) <= s.len(),
        forall|j: int| 0 <= j < first_index(s, c) ==> s[j] != c,
        first_index(s, c) < s.len() ==> s[first_index(s, c)] == c,
    decreases s.len(),
{
    if s.len() == 0 || s[0] == c {
    } else {
        let rest = s.skip(1);
        lemma_first_index(rest, c);
        assert forall|j: int| 0 <= j < first_index(s, c) implies s[j] != c by {
            if j > 0 {
                assert(rest[j - 1] == s[j]);
            }
        }
        if first_index(s, c) < s.len() {
            assert(rest[first_index(rest, c)] == s[first_index(s, c)]);
        }
    }
}

/// A position with no `c` before it, which holds `c` or is the end of `s`, is
/// `first_index(s, c)`.
pub proof fn lemma_first_index_unique(s: Seq<char>, c: char, i: int)
    requires
        0 <= i <= s.len(),
        forall|j: int| 0 <= j < i ==> s[j] != c,
        i < s.len() ==> s[i] == c,
    ensures
        first_index(s, c) == i,
{
    lemma_first_index(s, c);
    let f = first_index(s, c);
    if f < i {
        assert(s[f] == c);
    } else if i < f {
        assert(s[i] == c);
    }
}

/// Splitting loses nothing: the pieces joined by the separator are `s` again,
/// and no piece holds the separator.
pub proof fn lemma_split_join(s: Seq<char>, sep: char)
    ensures
        split_on(s, sep).len() >= 1,
        join_with(split_on(s, sep), sep) == s,
        forall|k: int, j: int|
            0 <= k < split_on(s, sep).len() && 0 <= j < split_on(s, sep)[k].len()
                ==> split_on(s, sep)[k][j] != sep,
    decreases s.len(),
{
    lemma_first_index(s, sep);
    let i = first_index(s, sep);
    if i >= s.len() {
    } else {
        let rest = s.skip(i + 1);
        lemma_split_join(rest, sep);
        let pieces = split_on(s, sep);
        let tail = split_on(rest, sep);
        assert(pieces.skip(1) == tail);
        assert(pieces[0] == s.take(i));
        assert(s.take(i) + seq![sep] + rest == s);
        assert forall|k: int, j: int|
            0 <= k < pieces.len() && 0 <= j < pieces[k].len() implies pieces[k][j] != sep by {
            if k > 0 {
                assert(pieces[k] == tail[k - 1]);
            }
        }
    }
}

/// The characters of a string slice, in order.
pub fn chars_of(s: &str) -> (chars: Vec<char>)
    ensures
        chars@ == s@,
{
    let mut chars: Vec<char> = Vec::new();
    for c in it: s.chars()
        invariant
            it.seq() == s@,
            chars@ == s@.take(it.index()),
    {
        chars.push(c);
    }
    assert(s@.take(s@.len() as int) == s@);
    chars
}

/// Whether `p` occurs in `s` at position `at`.
pub fn matches_at(s: &Vec<char>, at: usize, p: &Vec<char>) -> (found: bool)
    ensures
        found == occurs_at(s@, p@, at as int),
{
    if at > s.len() || p.len() > s.len() - at {
        return false;
    }
    let mut k: usize = 0;
    while k < p.len()
        invariant
            at + p.len() <= s.len(),
            k <= p.len(),
            forall|j: int| 0 <= j < k ==> s@[at + j] == p@[j],
        decreases p.len() - k,
    {
        if s[at + k] != p[k] {
            assert(s@.subrange(at as int, at + p.len())[k as int] == s@[at + k]);
            return false;
        }
        k += 1;
    }
    assert(s@.subrange(at as int, at + p.len()) =~= p@);
    true
}

/// Whether `p` occurs anywhere in `s`.
pub fn contains_pattern(s: &Vec<char>, p: &Vec<char>) -> (found: bool)
    ensures
        found == contains(s@, p@),
{
    let mut at: usize = 0;
    while at < s.len()
        invariant
            at <= s.len(),
            forall|j: int| 0 <= j < at ==> !occurs_at(s@, p@, j),
        decreases s.len() - at,
    {
        if matches_at(s, at, p) {
            return true;
        }
        at += 1;
    }
    matches_at(s, at, p)
}

/// The position from `from` on of the first `c`, or the length of `s`.
pub fn find_char(s: &Vec<char>, from: usize, c: char) -> (at: usize)
    requires
        from <= s.len(),
    ensures
        from <= at <= s.len(),
        at - from == first_index(s@.skip(from as int), c),
{
    let mut at: usize = from;
    while at < s.len() && s[at] != c
        invariant
            from <= at <= s.len(),
            forall|j: int| from <= j < at ==> s@[j] != c,
        decreases s.len() - at,
    {
        at += 1;
    }
    proof {
        lemma_first_index_unique(s@.skip(from as int), c, at - from);
    }
    at
}

/// The position after `p` if `s` begins with it, and else the beginning.
pub fn skip_prefix(s: &Vec<char>, p: &Vec<char>) -> (at: usize)
    ensures
        at <= s.len(),
        s@.skip(at as int) == without_prefix(s@, p@),
{
    if matches_at(s, 0, p) {
        p.len()
    } else {
        assert(s@.skip(0) == s@);
        0
    }
}

/// The position that is left after skipping, from `from` on, every leading
/// repetition of `p`.
pub fn skip_leading(s: &Vec<char>, from: usize, p: &Vec<char>) -> (at: usize)
    requires
        from <= s.len(),
    ensures
        from <= at <= s.len(),
        s@.skip(at as int) == strip_leading(s@.skip(from as int), p@),
{
    let mut at: usize = from;
    if p.len() == 0 {
        return at;
    }
    while matches_at(s, at, p)
        invariant
            p.len() > 0,
            from <= at <= s.len(),
            strip_leading(s@.skip(at as int), p@) == strip_leading(s@.skip(from as int), p@),
        decreases s.len() - at,
    {
        proof {
            lemma_occurs_in_suffix(s@, p@, at as int);
            assert(s@.skip(at as int).skip(p.len() as int) == s@.skip(at + p.len()));
        }
        at += p.len();
    }
    proof {
        lemma_occurs_in_suffix(s@, p@, at as int);
    }
    at
}

/// An occurrence at `at` is a prefix of the suffix that starts at `at`.
pub proof fn lemma_occurs_in_suffix(s: Seq<char>, p: Seq<char>, at: int)
    requires
        0 <= at <= s.len(),
    ensures
        occurs_at(s, p, at) == has_prefix(s.skip(at), p),
{
    if at + p.len() <= s.len() {
        assert(s.skip(at).subrange(0, p.len() as int) == s.subrange(at, at + p.len()));
    }
}

/// The pieces of `text` between line feeds, each as a string of its own.
pub fn split_lines(text: &str) -> (lines: Vec<String>)
    ensures
        views_of(lines@) == split_on(text@, '\n'),
{
    let chars = chars_of(text);
    let mut lines: Vec<String> = Vec::new();
    let mut start: usize = 0;
    let mut at: usize = 0;
    assert(views_of(lines@) + split_on(text@.skip(0), '\n') == split_on(text@, '\n')) by {
        assert(text@.skip(0) == text@);
        assert(views_of(lines@) == Seq::<Seq<char>>::empty());
    }
    while at < chars.len()
        invariant
            chars@ == text@,
            start <= at <= chars.len(),
            forall|j: int| start <= j < at ==> chars@[j] != '\n',
            views_of(lines@) + split_on(text@.skip(start as int), '\n') == split_on(text@, '\n'),
        decreases chars.len() - at,
    {
        if chars[at] == '\n' {
            let piece = text.substring_char(start, at).to_owned();
            proof {
                let rest = text@.skip(start as int);
                lemma_first_index_unique(rest, '\n', at - start);
                assert(rest.take(at - start) == text@.subrange(start as int, at as int));
                assert(rest.skip(at - start + 1) == text@.skip(at + 1));
                assert(views_of(lines@.push(piece)) == views_of(lines@).push(piece@));
            }
            lines.push(piece);
            start = at + 1;
        }
        at += 1;
    }
    let piece = text.substring_char(start, at).to_owned();
    proof {
        let rest = text@.skip(start as int);
        lemma_first_index_unique(rest, '\n', at - start);
        assert(rest == text@.subrange(start as int, at as int));
        assert(views_of(lines@.push(piece)) == views_of(lines@).push(piece@));
    }
    lines.push(piece);
    lines
}

} // verus!
