//! Decoding of the source-file listing: the outside listing operation prints
//! newline-delimited file paths; this module turns that text into the ordered
//! list of paths, each line kept verbatim, with exactly one trailing line
//! terminator trimmed. Empty (already-trimmed) output yields the empty list —
//! a naive line split would instead yield one empty entry.
use vstd::prelude::*;
use vstd::string::StrSliceExecFns;

verus! {

/// Splitting a character sequence on line terminators, as a plain split does:
/// the empty sequence yields one empty line, and a trailing terminator yields
/// a trailing empty line.
pub open spec fn split_lines(s: Seq<char>) -> Seq<Seq<char>>
    decreases s.len(),
{
    if s.len() == 0 {
        seq![Seq::<char>::empty()]
    } else if s.last() == '\n' {
        split_lines(s.drop_last()).push(Seq::<char>::empty())
    } else {
        let r = split_lines(s.drop_last());
        r.update(r.len() - 1, r.last().push(s.last()))
    }
}

/// A split always yields at least one line.
pub proof fn lemma_split_lines_nonempty(s: Seq<char>)
    ensures
        split_lines(s).len() >= 1,
    decreases s.len(),
{
    if s.len() == 0 {
    } else {
        lemma_split_lines_nonempty(s.drop_last());
    }
}

/// The decoded listing: one trailing line terminator trimmed, then split on
/// line boundaries; empty trimmed output is the empty list, not one empty
/// entry.
pub open spec fn decode_ls_output(s: Seq<char>) -> Seq<Seq<char>> {
    let t = if s.len() > 0 && s.last() == '\n' {
        s.drop_last()
    } else {
        s
    };
    if t.len() == 0 {
        Seq::<Seq<char>>::empty()
    } else {
        split_lines(t)
    }
}

/// Decodes the text the listing operation printed into the ordered list of
/// file paths, each line used verbatim.
pub fn decode_ls_files(out: &str) -> (r: Vec<String>)
    ensures
        r.deep_view() == decode_ls_output(out@),
{
    let n = out.unicode_len();
    let m: usize = if n > 0 && out.get_char(n - 1) == '\n' {
        n - 1
    } else {
        n
    };
    let mut lines: Vec<String> = Vec::new();
    if m == 0 {
        proof {
            assert(lines.deep_view() =~= decode_ls_output(out@));
        }
        return lines;
    }
    let ghost t = out@.take(m as int);
    let mut start: usize = 0;
    let mut i: usize = 0;
    proof {
        assert(t.take(0) =~= Seq::<char>::empty());
        assert(lines.deep_view().push(t.subrange(0, 0)) =~= split_lines(t.take(0)));
    }
    while i < m
        invariant
            0 <= start <= i <= m <= n,
            n == out@.len(),
            m > 0,
            m < n ==> m + 1 == n && out@.last() == '\n',
            m == n ==> !(out@.len() > 0 && out@.last() == '\n'),
            t == out@.take(m as int),
            lines.deep_view().push(t.subrange(start as int, i as int)) == split_lines(
                t.take(i as int),
            ),
        decreases m - i,
    {
        let c = out.get_char(i);
        proof {
            assert(t.take(i as int + 1).drop_last() =~= t.take(i as int));
            assert(t.take(i as int + 1).last() == t[i as int]);
            assert(t[i as int] == out@[i as int]);
            lemma_split_lines_nonempty(t.take(i as int));
        }
        if c == '\n' {
            let line = out.substring_char(start, i).to_owned();
            proof {
                assert(line@ =~= t.subrange(start as int, i as int));
            }
            let ghost old_lines = lines.deep_view();
            lines.push(line);
            proof {
                assert(lines.deep_view() =~= old_lines.push(t.subrange(start as int, i as int)));
                assert(t.subrange(i as int + 1, i as int + 1) =~= Seq::<char>::empty());
                assert(lines.deep_view().push(t.subrange(i as int + 1, i as int + 1)) =~=
                split_lines(t.take(i as int)).push(Seq::<char>::empty()));
            }
            start = i + 1;
        } else {
            proof {
                let prev = split_lines(t.take(i as int));
                assert(prev == lines.deep_view().push(t.subrange(start as int, i as int)));
                assert(prev.last() == t.subrange(start as int, i as int));
                assert(t.subrange(start as int, i as int).push(t[i as int]) =~= t.subrange(
                    start as int,
                    i as int + 1,
                ));
                assert(prev.update(prev.len() - 1, prev.last().push(t[i as int])) =~=
                lines.deep_view().push(t.subrange(start as int, i as int + 1)));
            }
        }
        i = i + 1;
    }
    let last_line = out.substring_char(start, m).to_owned();
    proof {
        assert(last_line@ =~= t.subrange(start as int, m as int));
    }
    let ghost old_lines = lines.deep_view();
    lines.push(last_line);
    proof {
        assert(t.take(m as int) =~= t);
        assert(lines.deep_view() =~= old_lines.push(t.subrange(start as int, m as int)));
        if m < n {
            assert(t =~= out@.drop_last());
        } else {
            assert(t =~= out@);
        }
        assert(lines.deep_view() == decode_ls_output(out@));
    }
    lines
}

} // verus!
