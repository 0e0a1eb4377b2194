//! Positions and locations exchanged with the analysis server, as plain
//! values.

use vstd::prelude::*;

use crate::text::spec_repeat_char;
use crate::text::repeat_char;

verus! {

/// A zero-based line/character position in a document, as the wire protocol
/// counts them.
#[derive(Clone, Copy, Debug, PartialEq, Eq, Structural)]
pub struct Position {
    pub line: u32,
    pub character: u32,
}

/// One resolved target location: a document and the position where the
/// definition starts.
#[derive(Clone, Debug)]
pub struct TargetLocation {
    /// The target document's URI.
    pub uri: String,
    /// The target range's start, zero-based.
    pub start: Position,
}

/// A marker line: `pad` spaces followed by `width` copies of `mark`.
pub open spec fn spec_marker_line(pad: nat, width: nat, mark: char) -> Seq<char> {
    spec_repeat_char(' ', pad) + spec_repeat_char(mark, width)
}

/// Builds a marker line of `pad` spaces and `width` copies of `mark`, for
/// underlining a range of a source line.
pub fn marker_line(pad: usize, width: usize, mark: char) -> (r: String)
    ensures
        r@ == spec_marker_line(pad as nat, width as nat, mark),
{
    let mut line = repeat_char(' ', pad);
    let marks = repeat_char(mark, width);
    line.append(marks.as_str());
    line
}

/// Whether a character counts as line indentation.
pub open spec fn spec_blank_char(c: char) -> bool {
    c == ' ' || c == '\t'
}

/// The index of the first non-blank character at or after `k`.
pub open spec fn spec_first_nonblank(s: Seq<char>, k: int) -> int
    decreases s.len() - k,
    when 0 <= k
{
    if k >= s.len() {
        s.len() as int
    } else if !spec_blank_char(s[k]) {
        k
    } else {
        spec_first_nonblank(s, k + 1)
    }
}

/// The end of the line once trailing blanks are dropped, scanning down
/// from `e`.
pub open spec fn spec_strip_end(s: Seq<char>, e: int) -> int
    decreases e,
    when e <= s.len()
{
    if e <= 0 {
        0
    } else if spec_blank_char(s[e - 1]) {
        spec_strip_end(s, e - 1)
    } else {
        e
    }
}

/// The line without its leading and trailing blanks.
pub open spec fn spec_trimmed(s: Seq<char>) -> Seq<char> {
    let lo = spec_first_nonblank(s, 0);
    let hi = spec_strip_end(s, s.len() as int);
    if lo >= hi {
        Seq::empty()
    } else {
        s.subrange(lo, hi)
    }
}

/// The first non-blank position is never past the end of the line.
pub proof fn lemma_first_nonblank_bounds(s: Seq<char>, k: int)
    requires
        0 <= k <= s.len(),
    ensures
        k <= spec_first_nonblank(s, k) <= s.len(),
    decreases s.len() - k,
{
    if k < s.len() && spec_blank_char(s[k]) {
        lemma_first_nonblank_bounds(s, k + 1);
    }
}

/// The stripped end never exceeds where it started.
pub proof fn lemma_strip_end_bounds(s: Seq<char>, e: int)
    requires
        0 <= e <= s.len(),
    ensures
        0 <= spec_strip_end(s, e) <= e,
    decreases e,
{
    if e > 0 && spec_blank_char(s[e - 1]) {
        lemma_strip_end_bounds(s, e - 1);
    }
}

/// Finds the index of the first non-blank character of `line`.
fn first_nonblank(line: &str) -> (r: usize)
    ensures
        r == spec_first_nonblank(line@, 0),
        r <= line@.len(),
{
    let n = line.unicode_len();
    let mut k: usize = 0;
    while k < n
        invariant
            k <= n,
            n == line@.len(),
            spec_first_nonblank(line@, 0) == spec_first_nonblank(line@, k as int),
        decreases n - k,
    {
        let c = line.get_char(k);
        if !(c == ' ' || c == '\t') {
            return k;
        }
        k = k + 1;
    }
    k
}

/// Finds the end of `line` once trailing blanks are dropped.
fn strip_end(line: &str) -> (r: usize)
    ensures
        r == spec_strip_end(line@, line@.len() as int),
        r <= line@.len(),
{
    let n = line.unicode_len();
    let mut e: usize = n;
    while e > 0
        invariant
            e <= n,
            n == line@.len(),
            spec_strip_end(line@, n as int) == spec_strip_end(line@, e as int),
        decreases e,
    {
        let c = line.get_char(e - 1);
        if !(c == ' ' || c == '\t') {
            return e;
        }
        e = e - 1;
    }
    0
}

/// The underline width for a range on `line`: the range's own width (at
/// least one mark) when it ends on the same line, else the rest of the
/// line from the range's start.
pub open spec fn spec_highlight_width(line: Seq<char>, start: Position, end: Position) -> nat {
    if start.line == end.line {
        if end.character > start.character {
            (end.character - start.character) as nat
        } else {
            1
        }
    } else {
        (line.len() - start.character) as nat
    }
}

/// Renders a source line with the range `[start, end)` underlined: the
/// line, stripped of its indentation, then a row of `^` marks aligned
/// under the range.  A start line past the end of the file yields nothing.
pub fn highlight_range(file_lines: &Vec<String>, start: Position, end: Position) -> (r: Vec<
    String,
>)
    requires
        (start.line as int) < file_lines@.len() ==> {
            let line = file_lines@[start.line as int]@;
            &&& spec_first_nonblank(line, 0) <= start.character
            &&& start.character <= line.len()
        },
    ensures
        (start.line as int) >= file_lines@.len() ==> r@.len() == 0,
        (start.line as int) < file_lines@.len() ==> {
            let line = file_lines@[start.line as int]@;
            &&& r@.len() == 2
            &&& r@[0]@ == "    "@ + spec_trimmed(line)
            &&& r@[1]@ == "    "@ + spec_marker_line(
                (start.character - spec_first_nonblank(line, 0)) as nat,
                spec_highlight_width(line, start, end),
                '^',
            )
        },
{
    let mut output: Vec<String> = Vec::new();
    let line_index = start.line as usize;
    if line_index >= file_lines.len() {
        return output;
    }
    let line = file_lines[line_index].as_str();
    let n = line.unicode_len();

    let lo = first_nonblank(line);
    let hi = strip_end(line);
    proof {
        lemma_first_nonblank_bounds(line@, 0);
        lemma_strip_end_bounds(line@, line@.len() as int);
    }
    let mut shown = String::from_str("    ");
    if lo < hi {
        let trimmed = line.substring_char(lo, hi);
        shown.append(trimmed);
    }
    proof {
        assert(shown@ =~= "    "@ + spec_trimmed(line@));
    }
    output.push(shown);

    let width: usize = if start.line == end.line {
        if end.character > start.character {
            (end.character - start.character) as usize
        } else {
            1
        }
    } else {
        n - (start.character as usize)
    };
    let mut underline = String::from_str("    ");
    let marks = marker_line((start.character as usize) - lo, width, '^');
    underline.append(marks.as_str());
    proof {
        assert(underline@ =~= "    "@ + spec_marker_line(
            (start.character - spec_first_nonblank(file_lines@[start.line as int]@, 0)) as nat,
            spec_highlight_width(file_lines@[start.line as int]@, start, end),
            '^',
        ));
    }
    output.push(underline);
    output
}

} // verus!
