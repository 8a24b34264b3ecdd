//! Splitting a label into its lines.

use vstd::prelude::*;
use vstd::std_specs::iter::IteratorSpec;
use vstd::string::*;

verus! {

/// The lines of `s`, which are what stands before, between and after its line
/// breaks: one more than it has breaks, so never none.
pub open spec fn split_lines(s: Seq<char>) -> Seq<Seq<char>>
    decreases s.len(),
{
    if s.len() == 0 {
        seq![Seq::<char>::empty()]
    } else {
        let before = split_lines(s.drop_last());
        if s.last() == '\n' {
            before.push(Seq::<char>::empty())
        } else {
            before.update(before.len() - 1, before.last().push(s.last()))
        }
    }
}

/// The first `limit` of `lines`, or all of them where there are fewer.
pub open spec fn at_most(lines: Seq<Seq<char>>, limit: int) -> Seq<Seq<char>> {
    if lines.len() <= limit {
        lines
    } else {
        lines.take(limit)
    }
}

/// The first `limit` lines of `s`, or all of them where it has fewer.
pub open spec fn first_lines(s: Seq<char>, limit: int) -> Seq<Seq<char>> {
    at_most(split_lines(s), limit)
}

/// What each string of `lines` holds.
pub open spec fn texts(lines: Seq<String>) -> Seq<Seq<char>> {
    Seq::new(lines.len(), |i: int| lines[i]@)
}

/// Every text has a line, if only an empty one.
pub proof fn lemma_split_lines_nonempty(s: Seq<char>)
    ensures
        split_lines(s).len() >= 1,
    decreases s.len(),
{
    if s.len() > 0 {
        lemma_split_lines_nonempty(s.drop_last());
    }
}

/// Splits `s` at its line breaks and keeps the first `limit` lines.
pub fn split(s: &str, limit: usize) -> (lines: Vec<String>)
    ensures
        texts(lines@) == first_lines(s@, limit as int),
{
    broadcast use group_string_axioms;

    let n = s.unicode_len();
    let mut lines: Vec<String> = Vec::new();
    let mut start: usize = 0;
    let mut i: usize = 0;
    let mut it = s.chars();
    assert(s@.take(0) == Seq::<char>::empty());
    assert(s@.skip(0) == s@);
    assert(s@.subrange(0, 0) == Seq::<char>::empty());
    assert(texts(lines@) == at_most(split_lines(s@.take(0)).drop_last(), limit as int));
    loop
        invariant
            n == s@.len(),
            start <= i <= n,
            it.remaining() == s@.skip(i as int),
            split_lines(s@.take(i as int)).len() >= 1,
            split_lines(s@.take(i as int)).last() == s@.subrange(start as int, i as int),
            texts(lines@) == at_most(split_lines(s@.take(i as int)).drop_last(), limit as int),
        ensures
            i == n,
        decreases n - i,
    {
        let ghost all = split_lines(s@.take(i as int));
        let ghost old_lines = lines@;
        match it.next() {
            Some(c) => {
                assert(c == s@[i as int]);
                assert(s@.take(i + 1).drop_last() == s@.take(i as int));
                assert(s@.take(i + 1).last() == c);
                assert(s@.skip(i as int).drop_first() == s@.skip(i + 1));
                if c == '\n' {
                    if lines.len() < limit {
                        let line = s.substring_char(start, i).to_owned();
                        lines.push(line);
                        assert(texts(lines@) == texts(old_lines).push(all.last()));
                        assert(texts(old_lines) == all.drop_last());
                        assert(all.drop_last().push(all.last()) == all);
                    } else {
                        assert(all.take(limit as int) == all.drop_last().take(limit as int));
                    }
                    start = i + 1;
                    assert(s@.subrange(start as int, start as int) == Seq::<char>::empty());
                    assert(all.push(Seq::<char>::empty()).drop_last() == all);
                } else {
                    assert(s@.subrange(start as int, i + 1) == s@.subrange(
                        start as int,
                        i as int,
                    ).push(c));
                    assert(all.update(all.len() - 1, all.last().push(c)).drop_last()
                        == all.drop_last());
                }
                i += 1;
            },
            None => {
                assert(s@.skip(i as int).len() == 0);
                break ;
            },
        }
    }
    assert(s@.take(i as int) == s@);
    let ghost all = split_lines(s@);
    let ghost old_lines = lines@;
    if lines.len() < limit {
        let line = s.substring_char(start, n).to_owned();
        lines.push(line);
        assert(texts(lines@) == texts(old_lines).push(all.last()));
        assert(all.drop_last().push(all.last()) == all);
    } else {
        assert(all.take(limit as int) == all.drop_last().take(limit as int));
    }
    lines
}

} // verus!
