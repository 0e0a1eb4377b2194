//! A call site found by the syntax walker.

use vstd::prelude::*;

use crate::location::spec_marker_line;
use crate::location::marker_line;
use crate::span::Span;
use crate::text::spec_dec_chars;
use crate::text::spec_repeat_char;
use crate::text::repeat_char;
use crate::text::u64_to_string;

verus! {

/// A function, method or constructor invocation found in a syntax tree.
///
/// `call` is the arena index of the whole call expression and
/// `goto_definition` the index of the node whose span should anchor a
/// go-to-definition query; the two spans are copied out so the record
/// outlives the tree it was read from.  The anchor span always lies inside
/// the call span.
#[derive(Clone, Copy, Debug, PartialEq, Eq, Structural)]
pub struct CallNode {
    /// Arena index of the node representing the whole call.
    pub call: usize,
    /// Arena index of the node for which goto-definition should be asked.
    pub goto_definition: usize,
    /// The call node's extent.
    pub call_span: Span,
    /// The goto-definition node's extent.
    pub goto_definition_span: Span,
}

impl CallNode {
    /// Whether the call and its anchor sit on one source line that the
    /// given line list has.
    pub open spec fn spec_on_one_line(self, line_count: nat) -> bool {
        &&& self.call_span.start.row == self.call_span.end.row
        &&& self.goto_definition_span.start.row == self.goto_definition_span.end.row
        &&& self.call_span.start.row == self.goto_definition_span.start.row
        &&& self.call_span.start.row < line_count
    }

    /// The first output line: the one-based line number, a separator, and
    /// the source line itself.
    pub open spec fn spec_numbered_line(self, source_line: Seq<char>) -> Seq<char> {
        spec_dec_chars((self.call_span.start.row + 1) as nat) + ": "@ + source_line
    }

    /// An underline row: indentation matching the line-number column, then
    /// spaces up to the span's start column, `mark`s across the span, and a
    /// label.
    pub open spec fn spec_underline(self, start: nat, width: nat, mark: char, label: Seq<char>) -> Seq<
        char,
    > {
        spec_repeat_char(' ', spec_dec_chars((self.call_span.start.row + 1) as nat).len()) + "  "@
            + spec_marker_line(start, width, mark) + label
    }

    /// Pretty prints the call with visual markers for the call and the
    /// goto-definition ranges.
    ///
    /// When the call and its anchor sit on one source line, the output is
    /// that line with its one-based number and two underline rows, `^` for
    /// the call and `~` for the goto-definition anchor.  A call spanning
    /// several lines yields `None`.
    pub fn pretty_print(&self, source_lines: &Vec<String>) -> (r: Option<Vec<String>>)
        requires
            self.call_span.start.row < usize::MAX,
            self.call_span.start.row == self.call_span.end.row ==> self.call_span.start.column
                <= self.call_span.end.column,
            self.goto_definition_span.start.row == self.goto_definition_span.end.row
                ==> self.goto_definition_span.start.column
                <= self.goto_definition_span.end.column,
        ensures
            match r {
                Some(lines) => {
                    &&& self.spec_on_one_line(source_lines@.len())
                    &&& lines@.len() == 3
                    &&& lines@[0]@ == self.spec_numbered_line(
                        source_lines@[self.call_span.start.row as int]@,
                    )
                    &&& lines@[1]@ == self.spec_underline(
                        self.call_span.start.column as nat,
                        (self.call_span.end.column - self.call_span.start.column) as nat,
                        '^',
                        " call"@,
                    )
                    &&& lines@[2]@ == self.spec_underline(
                        self.goto_definition_span.start.column as nat,
                        (self.goto_definition_span.end.column
                            - self.goto_definition_span.start.column) as nat,
                        '~',
                        " goto definition"@,
                    )
                },
                None => !self.spec_on_one_line(source_lines@.len()),
            },
    {
        let row = self.call_span.start.row;
        if !(self.call_span.start.row == self.call_span.end.row
            && self.goto_definition_span.start.row == self.goto_definition_span.end.row
            && self.call_span.start.row == self.goto_definition_span.start.row
            && row < source_lines.len()) {
            return None;
        }
        let mut output: Vec<String> = Vec::new();

        let row_str = u64_to_string((row as u64) + 1);
        let mut numbered = row_str.clone();
        numbered.append(": ");
        numbered.append(source_lines[row].as_str());
        proof {
            assert(numbered@ =~= self.spec_numbered_line(source_lines@[row as int]@));
        }
        output.push(numbered);

        let indent_width = row_str.as_str().unicode_len();
        let mut call_underline = repeat_char(' ', indent_width);
        call_underline.append("  ");
        let call_marks = marker_line(
            self.call_span.start.column,
            self.call_span.end.column - self.call_span.start.column,
            '^',
        );
        call_underline.append(call_marks.as_str());
        call_underline.append(" call");
        proof {
            assert(call_underline@ =~= self.spec_underline(
                self.call_span.start.column as nat,
                (self.call_span.end.column - self.call_span.start.column) as nat,
                '^',
                " call"@,
            ));
        }
        output.push(call_underline);

        let mut goto_underline = repeat_char(' ', indent_width);
        goto_underline.append("  ");
        let goto_marks = marker_line(
            self.goto_definition_span.start.column,
            self.goto_definition_span.end.column - self.goto_definition_span.start.column,
            '~',
        );
        goto_underline.append(goto_marks.as_str());
        goto_underline.append(" goto definition");
        proof {
            assert(goto_underline@ =~= self.spec_underline(
                self.goto_definition_span.start.column as nat,
                (self.goto_definition_span.end.column
                    - self.goto_definition_span.start.column) as nat,
                '~',
                " goto definition"@,
            ));
        }
        output.push(goto_underline);
        Some(output)
    }
}

} // verus!
