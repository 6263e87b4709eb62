//! Decoding file content into lines. A line ends at a line feed or at a
//! carriage return immediately followed by a line feed; the terminator is
//! not part of the line, and a final line needs no terminator.

use vstd::prelude::*;

verus! {

/// A line with a trailing carriage return removed: the segment before a
/// line feed keeps no `'\r'` that formed a `"\r\n"` terminator with it.
pub open spec fn spec_strip_cr(line: Seq<char>) -> Seq<char> {
    if line.len() > 0 && line.last() == '\r' {
        line.drop_last()
    } else {
        line
    }
}

/// The lines of a text: empty text has no lines; a leading `"\n"` or
/// `"\r\n"` ends an empty first line; any other leading character starts
/// the first line of the rest. A lone carriage return ends no line, and a
/// final line without a terminator is yielded as it stands.
pub open spec fn spec_lines(s: Seq<char>) -> Seq<Seq<char>>
    decreases s.len(),
{
    if s.len() == 0 {
        Seq::empty()
    } else if s[0] == '\n' {
        seq![Seq::<char>::empty()] + spec_lines(s.skip(1))
    } else if s[0] == '\r' && s.len() >= 2 && s[1] == '\n' {
        seq![Seq::<char>::empty()] + spec_lines(s.skip(2))
    } else {
        let rest = spec_lines(s.skip(1));
        if rest.len() == 0 {
            seq![seq![s[0]]]
        } else {
            seq![seq![s[0]] + rest[0]] + rest.skip(1)
        }
    }
}

/// The views of a vector of lines.
pub open spec fn lines_view(v: Seq<String>) -> Seq<Seq<char>> {
    v.map_values(|l: String| l@)
}

/// A segment without a line feed, terminated by one, is one line of the
/// whole text: the segment itself, less a trailing carriage return, and
/// then the lines of what follows the terminator.
proof fn lemma_lines_terminated(seg: Seq<char>, rest: Seq<char>)
    requires
        forall|k: int| 0 <= k < seg.len() ==> seg[k] != '\n',
    ensures
        spec_lines(seg.push('\n') + rest) == seq![spec_strip_cr(seg)] + spec_lines(rest),
    decreases seg.len(),
{
    let s = seg.push('\n') + rest;
    if seg.len() == 0 {
        assert(s[0] == '\n');
        assert(s.skip(1) =~= rest);
        assert(spec_lines(s) == seq![Seq::<char>::empty()] + spec_lines(rest));
        assert(spec_strip_cr(seg) =~= Seq::<char>::empty());
    } else if seg.len() == 1 && seg[0] == '\r' {
        assert(s[0] == '\r' && s.len() >= 2 && s[1] == '\n');
        assert(s.skip(2) =~= rest);
        assert(spec_lines(s) == seq![Seq::<char>::empty()] + spec_lines(rest));
        assert(spec_strip_cr(seg) =~= Seq::<char>::empty());
    } else {
        assert(s[0] == seg[0]);
        assert(s[0] != '\n');
        if seg.len() == 1 {
            assert(s[1] == '\n' && s[0] != '\r');
        } else {
            assert(s[1] == seg[1]);
            assert(s[1] != '\n');
        }
        let seg1 = seg.drop_first();
        assert(forall|k: int| 0 <= k < seg1.len() ==> seg1[k] == seg[k + 1]);
        lemma_lines_terminated(seg1, rest);
        assert(s.skip(1) =~= seg1.push('\n') + rest);
        let rest_lines = spec_lines(s.skip(1));
        assert(rest_lines == seq![spec_strip_cr(seg1)] + spec_lines(rest));
        assert(rest_lines.len() >= 1);
        assert(rest_lines[0] == spec_strip_cr(seg1));
        assert(spec_lines(s) == seq![seq![s[0]] + rest_lines[0]] + rest_lines.skip(1));
        assert(rest_lines.skip(1) =~= spec_lines(rest));
        assert(seq![seg[0]] + spec_strip_cr(seg1) =~= spec_strip_cr(seg)) by {
            if seg.len() == 1 {
                assert(seg[0] != '\r');
                assert(spec_strip_cr(seg) =~= seg);
            } else if seg.last() == '\r' {
                assert(seg1.last() == '\r');
                assert(seq![seg[0]] + seg1.drop_last() =~= seg.drop_last());
            } else {
                assert(seg1.last() != '\r');
                assert(seq![seg[0]] + seg1 =~= seg);
            }
        }
        assert(spec_lines(s) =~= seq![spec_strip_cr(seg)] + spec_lines(rest));
    }
}

/// A nonempty segment without a line feed is exactly one line, kept whole:
/// with no terminator, no carriage return is removed.
proof fn lemma_lines_unterminated(seg: Seq<char>)
    requires
        seg.len() > 0,
        forall|k: int| 0 <= k < seg.len() ==> seg[k] != '\n',
    ensures
        spec_lines(seg) == seq![seg],
    decreases seg.len(),
{
    assert(seg[0] != '\n');
    if seg.len() >= 2 {
        assert(seg[1] != '\n');
    }
    if seg.len() == 1 {
        assert(spec_lines(seg.skip(1)) =~= Seq::<Seq<char>>::empty()) by {
            assert(seg.skip(1) =~= Seq::<char>::empty());
        }
        assert(spec_lines(seg) == seq![seq![seg[0]]]);
        assert(seq![seg[0]] =~= seg);
    } else {
        let seg1 = seg.drop_first();
        assert(forall|k: int| 0 <= k < seg1.len() ==> seg1[k] == seg[k + 1]);
        lemma_lines_unterminated(seg1);
        assert(seg.skip(1) =~= seg1);
        let rest = spec_lines(seg.skip(1));
        assert(rest == seq![seg1]);
        assert(spec_lines(seg) == seq![seq![seg[0]] + seg1] + rest.skip(1));
        assert(rest.skip(1) =~= Seq::<Seq<char>>::empty());
        assert(seq![seg[0]] + seg1 =~= seg);
        assert(spec_lines(seg) =~= seq![seg]);
    }
}

/// Splits a text into its lines: split at each line feed, with a carriage
/// return immediately before a line feed removed from the line; a final
/// segment without a terminator is a line of its own.
pub fn split_lines(s: &str) -> (r: Vec<String>)
    ensures
        lines_view(r@) == spec_lines(s@),
{
    let n: usize = s.unicode_len();
    let mut lines: Vec<String> = Vec::new();
    let mut start: usize = 0;
    let mut i: usize = 0;
    proof {
        assert(s@.skip(0) =~= s@);
        assert(lines_view(lines@) + spec_lines(s@) =~= spec_lines(s@));
    }
    while i < n
        invariant
            n == s@.len(),
            0 <= start <= i <= n,
            forall|k: int| start <= k < i ==> s@[k] != '\n',
            lines_view(lines@) + spec_lines(s@.skip(start as int)) == spec_lines(s@),
        decreases n - i,
    {
        if s.get_char(i) == '\n' {
            let end: usize = if i > start && s.get_char(i - 1) == '\r' {
                i - 1
            } else {
                i
            };
            let ghost seg = s@.subrange(start as int, i as int);
            proof {
                assert(s@.subrange(start as int, end as int) =~= spec_strip_cr(seg)) by {
                    if end < i {
                        assert(seg.last() == '\r');
                        assert(s@.subrange(start as int, end as int) =~= seg.drop_last());
                    } else {
                        if seg.len() > 0 {
                            assert(seg.last() == s@[i - 1]);
                        }
                        assert(s@.subrange(start as int, end as int) =~= seg);
                    }
                }
                assert(s@.skip(start as int) =~= seg.push('\n') + s@.skip(i + 1));
                lemma_lines_terminated(seg, s@.skip(i + 1));
            }
            let line: String = s.substring_char(start, end).to_owned();
            let ghost old_lines = lines@;
            lines.push(line);
            proof {
                assert(lines_view(lines@) =~= lines_view(old_lines).push(spec_strip_cr(seg)));
                assert(lines_view(lines@) + spec_lines(s@.skip(i + 1)) =~= lines_view(old_lines)
                    + spec_lines(s@.skip(start as int)));
            }
            start = i + 1;
        }
        i = i + 1;
    }
    if start < n {
        let ghost seg = s@.skip(start as int);
        proof {
            assert(seg =~= s@.subrange(start as int, n as int));
            lemma_lines_unterminated(seg);
        }
        let line: String = s.substring_char(start, n).to_owned();
        let ghost old_lines = lines@;
        lines.push(line);
        proof {
            assert(lines_view(lines@) =~= lines_view(old_lines).push(seg));
            assert(lines_view(lines@) =~= lines_view(old_lines) + spec_lines(seg));
        }
    } else {
        proof {
            assert(s@.skip(start as int) =~= Seq::<char>::empty());
            assert(lines_view(lines@) =~= lines_view(lines@) + spec_lines(s@.skip(start as int)));
        }
    }
    lines
}

} // verus!
