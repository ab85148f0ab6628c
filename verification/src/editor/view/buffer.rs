//! The text buffer: an ordered sequence of lines, immutable between loads.

use vstd::prelude::*;

verus! {

/// The loaded text, one `String` per line, in file order.
pub struct Buffer {
    pub lines: Vec<String>,
}

impl Default for Buffer {
    fn default() -> (r: Self)
        ensures
            r.lines@.len() == 0,
    {
        Buffer { lines: Vec::new() }
    }
}

/// The character sequences of a sequence of owned lines.
pub open spec fn lines_view_of(lines: Seq<String>) -> Seq<Seq<char>> {
    lines.map_values(|l: String| l@)
}

/// The buffer's mathematical content: its lines as character sequences.
pub open spec fn lines_view(b: Buffer) -> Seq<Seq<char>> {
    lines_view_of(b.lines@)
}

/// Index of the first `'\n'` in `s`, or `s.len()` if there is none.
pub open spec fn first_newline(s: Seq<char>) -> int
    decreases s.len(),
{
    if s.len() == 0 {
        0
    } else if s[0] == '\n' {
        0
    } else {
        1 + first_newline(s.drop_first())
    }
}

/// Drops a final `'\r'`, so that a `"\r\n"` line ending leaves no carriage
/// return on the line.
pub open spec fn strip_trailing_cr(line: Seq<char>) -> Seq<char> {
    if line.len() > 0 && line.last() == '\r' {
        line.drop_last()
    } else {
        line
    }
}

/// Splits text into lines: each `'\n'` ends a line (a `'\r'` directly before
/// it is not part of the line), a non-empty remainder after the last `'\n'`
/// is a final line, and text ending in `'\n'` yields no trailing empty line.
pub open spec fn split_lines(s: Seq<char>) -> Seq<Seq<char>>
    decreases s.len(),
{
    if s.len() == 0 {
        Seq::empty()
    } else {
        let i = first_newline(s);
        if 0 <= i < s.len() {
            seq![strip_trailing_cr(s.subrange(0, i))] + split_lines(s.subrange(i + 1, s.len() as int))
        } else {
            seq![s]
        }
    }
}

/// If `s[k]` is the first `'\n'` in `s`, then `first_newline(s) == k`.
pub proof fn lemma_first_newline_at(s: Seq<char>, k: int)
    requires
        0 <= k < s.len(),
        s[k] == '\n',
        forall|j: int| 0 <= j < k ==> s[j] != '\n',
    ensures
        first_newline(s) == k,
    decreases s.len(),
{
    if k == 0 {
    } else {
        assert(s[0] != '\n');
        let t = s.drop_first();
        assert forall|j: int| 0 <= j < k - 1 implies t[j] != '\n' by {
            assert(s[j + 1] != '\n');
        }
        assert(t[k - 1] == '\n');
        lemma_first_newline_at(t, k - 1);
    }
}

/// If `s` holds no `'\n'`, then `first_newline(s) == s.len()`.
pub proof fn lemma_first_newline_none(s: Seq<char>)
    requires
        forall|j: int| 0 <= j < s.len() ==> s[j] != '\n',
    ensures
        first_newline(s) == s.len(),
    decreases s.len(),
{
    if s.len() == 0 {
    } else {
        let t = s.drop_first();
        assert forall|j: int| 0 <= j < t.len() implies t[j] != '\n' by {
            assert(s[j + 1] != '\n');
        }
        lemma_first_newline_none(t);
    }
}

impl Buffer {
    /// True exactly when the buffer holds no lines at all (a zero-length
    /// text yields an empty buffer; one empty line is not empty).
    pub fn is_empty(&self) -> (r: bool)
        ensures
            r == (lines_view(*self).len() == 0),
    {
        self.lines.len() == 0
    }

    /// Builds a buffer from the full text of a file, splitting it into
    /// lines as `split_lines` describes and keeping each line verbatim.
    pub fn load(contents: &str) -> (b: Buffer)
        ensures
            lines_view(b) == split_lines(contents@),
    {
        let ghost s: Seq<char> = contents@;
        let n: usize = contents.unicode_len();
        let mut lines: Vec<String> = Vec::new();
        let mut start: usize = 0;
        let mut i: usize = 0;
        proof {
            assert(s.subrange(0, n as int) =~= s);
            assert(lines_view_of(lines@) + split_lines(s) =~= split_lines(s));
        }
        while i < n
            invariant
                n == s.len(),
                s == contents@,
                start <= i <= n,
                forall|j: int| start <= j < i ==> s[j] != '\n',
                split_lines(s) == lines_view_of(lines@) + split_lines(s.subrange(start as int, n as int)),
            decreases n - i,
        {
            let c = contents.get_char(i);
            if c == '\n' {
                let end: usize = if i > start && contents.get_char(i - 1) == '\r' {
                    i - 1
                } else {
                    i
                };
                let line: String = contents.substring_char(start, end).to_owned();
                proof {
                    lemma_split_step(s, start as int, i as int);
                    assert(line@ =~= strip_trailing_cr(s.subrange(start as int, i as int)));
                    lemma_lines_view_push(lines@, line);
                }
                lines.push(line);
                start = i + 1;
            }
            i += 1;
        }
        let ghost rest = s.subrange(start as int, n as int);
        if start < n {
            let line: String = contents.substring_char(start, n).to_owned();
            proof {
                assert forall|j: int| 0 <= j < rest.len() implies rest[j] != '\n' by {
                    assert(s[start + j] != '\n');
                }
                lemma_first_newline_none(rest);
                assert(split_lines(rest) == seq![rest]);
                lemma_lines_view_push(lines@, line);
                assert(lines_view_of(lines@).push(line@) =~= lines_view_of(lines@) + seq![rest]);
            }
            lines.push(line);
            proof {
                assert(lines_view_of(lines@) == split_lines(s));
            }
        } else {
            proof {
                assert(rest.len() == 0);
                assert(lines_view_of(lines@) + split_lines(rest) =~= lines_view_of(lines@));
            }
        }
        Buffer { lines }
    }
}

/// Appending one line maps to pushing its character sequence.
proof fn lemma_lines_view_push(lines: Seq<String>, l: String)
    ensures
        lines_view_of(lines.push(l)) == lines_view_of(lines).push(l@),
{
    assert(lines_view_of(lines.push(l)) =~= lines_view_of(lines).push(l@));
}

/// With the first `'\n'` of the tail at position `i`, splitting the tail
/// yields the stripped segment `[start, i)` followed by the split of what
/// comes after the `'\n'`.
proof fn lemma_split_step(s: Seq<char>, start: int, i: int)
    requires
        0 <= start <= i < s.len(),
        s[i] == '\n',
        forall|j: int| start <= j < i ==> s[j] != '\n',
    ensures
        split_lines(s.subrange(start, s.len() as int)) == seq![
            strip_trailing_cr(s.subrange(start, i)),
        ] + split_lines(s.subrange(i + 1, s.len() as int)),
{
    let rest = s.subrange(start, s.len() as int);
    assert forall|j: int| 0 <= j < i - start implies rest[j] != '\n' by {
        assert(s[start + j] != '\n');
    }
    assert(rest[i - start] == '\n');
    lemma_first_newline_at(rest, i - start);
    assert(rest.subrange(0, i - start) =~= s.subrange(start, i));
    assert(rest.subrange(i - start + 1, rest.len() as int) =~= s.subrange(i + 1, s.len() as int));
}

} // verus!
