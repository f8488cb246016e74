use vstd::prelude::*;

verus! {

/// Whether the two-character separator `::` starts at position `i` of `s`.
pub open spec fn sep_at(s: Seq<char>, i: int) -> bool {
    0 <= i && i + 1 < s.len() && s[i] == ':' && s[i + 1] == ':'
}

/// Whether `s` holds a separator anywhere.
pub open spec fn has_sep(s: Seq<char>) -> bool {
    exists|i: int| sep_at(s, i)
}

/// Whether `i` is where the leftmost separator of `s` starts.
pub open spec fn is_first_sep(s: Seq<char>, i: int) -> bool {
    sep_at(s, i) && forall|j: int| 0 <= j < i ==> !sep_at(s, j)
}

/// Where the leftmost separator of `s` starts, if `s` holds one.
pub open spec fn first_sep(s: Seq<char>) -> int {
    choose|i: int| is_first_sep(s, i)
}

/// The pieces between the separators of `s`, left to right. A text without
/// separator is its own single piece; separators are matched leftmost first
/// and do not overlap. (A text that holds a separator has a leftmost one, so
/// the second condition below adds nothing; it shows that the rest is shorter.)
pub open spec fn split(s: Seq<char>) -> Seq<Seq<char>>
    decreases s.len(),
{
    if has_sep(s) && is_first_sep(s, first_sep(s)) {
        let i = first_sep(s);
        seq![s.subrange(0, i)] + split(s.subrange(i + 2, s.len() as int))
    } else {
        seq![s]
    }
}

/// The components of a namespace path: none for the empty path, which names
/// the global namespace, else the pieces between its separators.
pub open spec fn path_parts(s: Seq<char>) -> Seq<Seq<char>> {
    if s.len() == 0 {
        Seq::empty()
    } else {
        split(s)
    }
}

/// A separator of a suffix is a separator of the whole, shifted.
pub proof fn lemma_sep_shift(s: Seq<char>, start: int, k: int)
    requires
        0 <= start <= s.len(),
    ensures
        sep_at(s.subrange(start, s.len() as int), k) == (k >= 0 && sep_at(s, start + k)),
{
}

/// A text in which no position starts a separator is a single piece.
pub proof fn lemma_split_none(s: Seq<char>)
    requires
        forall|j: int| !sep_at(s, j),
    ensures
        split(s) == seq![s],
{
}

/// The leftmost separator cuts off the first piece.
pub proof fn lemma_split_at(s: Seq<char>, i: int)
    requires
        is_first_sep(s, i),
    ensures
        split(s) == seq![s.subrange(0, i)] + split(s.subrange(i + 2, s.len() as int)),
{
    assert(sep_at(s, i));
    let f = first_sep(s);
    assert(is_first_sep(s, f));
    assert(f == i) by {
        if f < i {
            assert(!sep_at(s, f));
        } else if i < f {
            assert(!sep_at(s, i));
        }
    }
}

/// The pieces put together again, with a separator between neighbours.
pub open spec fn join(pieces: Seq<Seq<char>>) -> Seq<char>
    decreases pieces.len(),
{
    if pieces.len() == 0 {
        Seq::empty()
    } else if pieces.len() == 1 {
        pieces[0]
    } else {
        pieces[0] + seq![':', ':'] + join(pieces.skip(1))
    }
}

/// A text that holds a separator has a leftmost one.
pub proof fn lemma_leftmost_sep(s: Seq<char>, i: int)
    requires
        sep_at(s, i),
    ensures
        is_first_sep(s, first_sep(s)),
        first_sep(s) <= i,
    decreases i,
{
    if exists|j: int| 0 <= j < i && sep_at(s, j) {
        let j = choose|j: int| 0 <= j < i && sep_at(s, j);
        lemma_leftmost_sep(s, j);
    } else {
        assert(is_first_sep(s, i));
        let f = first_sep(s);
        assert(is_first_sep(s, f));
        if i < f {
            assert(!sep_at(s, i));
        }
    }
}

/// Splitting loses nothing: the pieces, joined by separators, are the text.
pub proof fn law_join_split(s: Seq<char>)
    ensures
        split(s).len() >= 1,
        join(split(s)) == s,
    decreases s.len(),
{
    if has_sep(s) && is_first_sep(s, first_sep(s)) {
        let i = first_sep(s);
        let head = s.subrange(0, i);
        let tail = s.subrange(i + 2, s.len() as int);
        law_join_split(tail);
        let pieces = seq![head] + split(tail);
        assert(pieces.skip(1) =~= split(tail));
        assert(pieces[0] == head);
        assert(head + seq![':', ':'] + tail =~= s);
    }
}

/// No piece holds a separator.
pub proof fn law_split_pieces(s: Seq<char>, k: int)
    requires
        0 <= k < split(s).len(),
    ensures
        !has_sep(split(s)[k]),
    decreases s.len(),
{
    if has_sep(s) {
        let at = choose|i: int| sep_at(s, i);
        lemma_leftmost_sep(s, at);
        let i = first_sep(s);
        let head = s.subrange(0, i);
        let tail = s.subrange(i + 2, s.len() as int);
        if k == 0 {
            assert(split(s)[0] == head);
            if has_sep(head) {
                let j = choose|j: int| sep_at(head, j);
                assert(sep_at(s, j));
            }
        } else {
            assert(split(s)[k] == split(tail)[k - 1]);
            law_split_pieces(tail, k - 1);
        }
    }
}

/// Only the empty path has no component.
pub proof fn law_path_parts_count(s: Seq<char>)
    ensures
        s.len() == 0 <==> path_parts(s).len() == 0,
{
    law_join_split(s);
}

} // verus!
