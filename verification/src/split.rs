//! Splitting text at a separator character, and the inverse join.
//!
//! Splitting keeps empty pieces, so the result always holds exactly one
//! more piece than there are separators, and joining the pieces with the
//! separator restores the original text.

use vstd::prelude::*;

verus! {

/// The pieces of `s` between occurrences of `sep`.
pub open spec fn split_at_char(s: Seq<char>, sep: char) -> Seq<Seq<char>>
    decreases s.len(),
{
    if s.len() == 0 {
        seq![Seq::<char>::empty()]
    } else {
        let rest = split_at_char(s.drop_last(), sep);
        if s.last() == sep {
            rest.push(Seq::<char>::empty())
        } else {
            rest.update(rest.len() - 1, rest.last().push(s.last()))
        }
    }
}

/// The pieces re-joined with `sep` between them.
pub open spec fn join_char(parts: Seq<Seq<char>>, sep: char) -> Seq<char>
    decreases parts.len(),
{
    if parts.len() == 0 {
        Seq::empty()
    } else if parts.len() == 1 {
        parts[0]
    } else {
        join_char(parts.drop_last(), sep) + seq![sep] + parts.last()
    }
}

/// Splitting yields at least one piece.
pub proof fn lemma_split_len(s: Seq<char>, sep: char)
    ensures
        split_at_char(s, sep).len() >= 1,
    decreases s.len(),
{
    if s.len() > 0 {
        lemma_split_len(s.drop_last(), sep);
    }
}

/// No piece of a split contains the separator.
pub proof fn lemma_split_pieces_free(s: Seq<char>, sep: char)
    ensures
        forall|i: int, j: int|
            0 <= i < split_at_char(s, sep).len() && 0 <= j < split_at_char(s, sep)[i].len()
                ==> #[trigger] split_at_char(s, sep)[i][j] != sep,
    decreases s.len(),
{
    if s.len() > 0 {
        lemma_split_pieces_free(s.drop_last(), sep);
        lemma_split_len(s.drop_last(), sep);
    }
}

/// Joining the pieces of a split with the same separator restores the
/// original text.
pub proof fn lemma_join_split(s: Seq<char>, sep: char)
    ensures
        join_char(split_at_char(s, sep), sep) == s,
    decreases s.len(),
{
    if s.len() == 0 {
        assert(join_char(split_at_char(s, sep), sep) =~= s);
    } else {
        let front = s.drop_last();
        let c = s.last();
        lemma_join_split(front, sep);
        lemma_split_len(front, sep);
        let rest = split_at_char(front, sep);
        if c == sep {
            assert(rest.push(Seq::<char>::empty()).drop_last() =~= rest);
            assert(join_char(rest.push(Seq::<char>::empty()), sep) =~= front + seq![sep]);
            assert(front + seq![sep] =~= s);
        } else {
            let updated = rest.update(rest.len() - 1, rest.last().push(c));
            if rest.len() == 1 {
                assert(join_char(updated, sep) == rest[0].push(c));
                assert(rest[0].push(c) =~= s);
            } else {
                assert(updated.drop_last() =~= rest.drop_last());
                assert(updated.last() == rest.last().push(c));
                assert(join_char(updated, sep) == join_char(rest.drop_last(), sep) + seq![sep]
                    + rest.last().push(c));
                assert(join_char(rest.drop_last(), sep) + seq![sep] + rest.last().push(c) =~= (
                join_char(rest.drop_last(), sep) + seq![sep] + rest.last()).push(c));
                assert((join_char(rest.drop_last(), sep) + seq![sep] + rest.last()).push(c)
                    == front.push(c));
                assert(front.push(c) =~= s);
            }
        }
    }
}

/// The pieces joined with the separator put before every piece, first
/// included.
pub open spec fn join_each_prefixed(parts: Seq<Seq<char>>, sep: char) -> Seq<char>
    decreases parts.len(),
{
    if parts.len() == 0 {
        Seq::empty()
    } else {
        join_each_prefixed(parts.drop_last(), sep) + seq![sep] + parts.last()
    }
}

/// A join starts with its first piece.
pub proof fn lemma_join_head(parts: Seq<Seq<char>>, sep: char)
    requires
        parts.len() >= 1,
    ensures
        join_char(parts, sep).len() >= parts[0].len(),
        forall|i: int| 0 <= i < parts[0].len() ==> #[trigger] join_char(parts, sep)[i]
            == parts[0][i],
    decreases parts.len(),
{
    if parts.len() > 1 {
        lemma_join_head(parts.drop_last(), sep);
        assert(parts.drop_last()[0] == parts[0]);
    }
}

/// When the first piece is empty, the join is the remaining pieces each
/// put after one separator.
pub proof fn lemma_join_prefixed(parts: Seq<Seq<char>>, sep: char)
    requires
        parts.len() >= 1,
        parts[0] == Seq::<char>::empty(),
    ensures
        join_char(parts, sep) == join_each_prefixed(parts.skip(1), sep),
    decreases parts.len(),
{
    if parts.len() == 1 {
        assert(parts.skip(1) =~= Seq::<Seq<char>>::empty());
        assert(join_char(parts, sep) =~= join_each_prefixed(parts.skip(1), sep));
    } else {
        assert(parts.drop_last()[0] == parts[0]);
        lemma_join_prefixed(parts.drop_last(), sep);
        assert(parts.skip(1).drop_last() =~~= parts.drop_last().skip(1));
        assert(parts.skip(1).last() == parts.last());
        assert(parts.skip(1).len() >= 1);
    }
}

/// The views of a list of owned strings.
pub open spec fn seq_views(v: Seq<String>) -> Seq<Seq<char>> {
    v.map_values(|t: String| t@)
}

/// Split `s` at every occurrence of `sep`, keeping empty pieces.
pub fn split_str(s: &str, sep: char) -> (r: Vec<String>)
    ensures
        seq_views(r@) == split_at_char(s@, sep),
        r@.len() >= 1,
{
    let n = s.unicode_len();
    let mut parts: Vec<String> = Vec::new();
    let mut start: usize = 0;
    let mut i: usize = 0;
    proof {
        assert(split_at_char(s@.take(0), sep) =~~= seq_views(parts@).push(s@.subrange(0, 0)));
    }
    loop
        invariant
            start <= i <= n,
            n == s@.len(),
            split_at_char(s@.take(i as int), sep) == seq_views(parts@).push(
                s@.subrange(start as int, i as int),
            ),
        decreases n - i,
    {
        if i == n {
            let last = s.substring_char(start, n).to_owned();
            let ghost parts0 = parts@;
            parts.push(last);
            proof {
                assert(s@.take(n as int) =~= s@);
                assert(seq_views(parts@) =~~= seq_views(parts0).push(
                    s@.subrange(start as int, n as int),
                ));
                lemma_split_len(s@, sep);
                assert(seq_views(parts@) =~~= split_at_char(s@, sep));
            }
            return parts;
        }
        let c = s.get_char(i);
        let ghost take_i = s@.take(i as int);
        let ghost take_i1 = s@.take(i as int + 1);
        proof {
            assert(take_i1.drop_last() =~= take_i);
            assert(take_i1.last() == s@[i as int]);
            lemma_split_len(take_i, sep);
        }
        if c == sep {
            let piece = s.substring_char(start, i).to_owned();
            let ghost parts0 = parts@;
            parts.push(piece);
            proof {
                assert(seq_views(parts@) =~~= seq_views(parts0).push(
                    s@.subrange(start as int, i as int),
                ));
                assert(split_at_char(take_i1, sep) =~~= seq_views(parts@).push(
                    Seq::<char>::empty(),
                ));
                assert(s@.subrange(i as int + 1, i as int + 1) =~= Seq::<char>::empty());
            }
            start = i + 1;
        } else {
            proof {
                let before = seq_views(parts@).push(s@.subrange(start as int, i as int));
                assert(split_at_char(take_i1, sep) == before.update(
                    before.len() - 1,
                    before.last().push(s@[i as int]),
                ));
                assert(s@.subrange(start as int, i as int).push(s@[i as int]) =~= s@.subrange(
                    start as int,
                    i as int + 1,
                ));
                assert(before.update(before.len() - 1, s@.subrange(start as int, i as int + 1))
                    =~~= seq_views(parts@).push(s@.subrange(start as int, i as int + 1)));
            }
        }
        i = i + 1;
    }
}

} // verus!
