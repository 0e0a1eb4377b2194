//! A call site paired with what the analysis server resolved it to.

use vstd::prelude::*;

use crate::call_node::CallNode;
use crate::location::TargetLocation;
use crate::text::spec_dec_chars;
use crate::text::u64_to_string;

verus! {

/// What a semantic query resolved one call site to.
#[derive(Clone, Debug)]
pub enum Resolution {
    /// The server returned no target; a legitimate terminal state.
    Unresolved,
    /// Exactly one definition site.
    SingleTarget(TargetLocation),
    /// Several candidate definition sites.
    MultipleTargets(Vec<TargetLocation>),
}

/// Reduces a query outcome to a [`Resolution`]: an absent or empty answer
/// is `Unresolved`, one location is a single target, and anything longer
/// keeps the whole list.
pub fn resolution_of(targets: Option<Vec<TargetLocation>>) -> (r: Resolution)
    ensures
        match targets {
            None => r is Unresolved,
            Some(locs) => {
                if locs@.len() == 0 {
                    r is Unresolved
                } else if locs@.len() == 1 {
                    r matches Resolution::SingleTarget(loc) && loc == locs@[0]
                } else {
                    r matches Resolution::MultipleTargets(l) && l@ == locs@
                }
            },
        },
{
    match targets {
        None => Resolution::Unresolved,
        Some(mut locs) => {
            if locs.len() == 0 {
                Resolution::Unresolved
            } else if locs.len() == 1 {
                match locs.pop() {
                    Some(loc) => Resolution::SingleTarget(loc),
                    None => Resolution::Unresolved,
                }
            } else {
                Resolution::MultipleTargets(locs)
            }
        },
    }
}

/// A call and its definition.
#[derive(Clone, Debug)]
pub struct CallWithTarget {
    /// The path of the file containing the call.
    pub file_path: String,
    /// The call site, with its spans copied out of the tree.
    pub call: CallNode,
    /// What the call resolved to.
    pub resolution: Resolution,
}

/// The report line for one resolved target: where the call stands and
/// where its definition was found, both one-based.
pub open spec fn spec_target_line(
    file: Seq<char>,
    row: nat,
    column: nat,
    uri: Seq<char>,
    line: nat,
    character: nat,
) -> Seq<char> {
    "Call "@ + file + ":"@ + spec_dec_chars(row + 1) + ":"@ + spec_dec_chars(column + 1)
        + " targets "@ + uri + ":"@ + spec_dec_chars(line + 1) + ":"@ + spec_dec_chars(
        character + 1,
    )
}

/// The report line of `call` resolving to `location`.
pub fn pretty_print_location(call: &CallWithTarget, location: &TargetLocation) -> (r: String)
    requires
        call.call.call_span.start.row < usize::MAX,
        call.call.call_span.start.column < usize::MAX,
    ensures
        r@ == spec_target_line(
            call.file_path@,
            call.call.call_span.start.row as nat,
            call.call.call_span.start.column as nat,
            location.uri@,
            location.start.line as nat,
            location.start.character as nat,
        ),
{
    let mut line = String::from_str("Call ");
    line.append(call.file_path.as_str());
    line.append(":");
    let row_str = u64_to_string((call.call.call_span.start.row as u64) + 1);
    line.append(row_str.as_str());
    line.append(":");
    let col_str = u64_to_string((call.call.call_span.start.column as u64) + 1);
    line.append(col_str.as_str());
    line.append(" targets ");
    line.append(location.uri.as_str());
    line.append(":");
    let tline_str = u64_to_string((location.start.line as u64) + 1);
    line.append(tline_str.as_str());
    line.append(":");
    let tchar_str = u64_to_string((location.start.character as u64) + 1);
    line.append(tchar_str.as_str());
    proof {
        assert(line@ =~= spec_target_line(
            call.file_path@,
            call.call.call_span.start.row as nat,
            call.call.call_span.start.column as nat,
            location.uri@,
            location.start.line as nat,
            location.start.character as nat,
        ));
    }
    line
}

impl CallWithTarget {
    /// The report line of one target of this call.
    pub open spec fn spec_line_of(self, loc: TargetLocation) -> Seq<char> {
        spec_target_line(
            self.file_path@,
            self.call.call_span.start.row as nat,
            self.call.call_span.start.column as nat,
            loc.uri@,
            loc.start.line as nat,
            loc.start.character as nat,
        )
    }

    /// Renders one report line per resolved target: one line for a single
    /// target, one per location for multiple, and nothing for an
    /// unresolved call.
    pub fn pretty_print(&self) -> (r: Vec<String>)
        requires
            self.call.call_span.start.row < usize::MAX,
            self.call.call_span.start.column < usize::MAX,
        ensures
            match self.resolution {
                Resolution::Unresolved => r@.len() == 0,
                Resolution::SingleTarget(loc) => r@.len() == 1 && r@[0]@ == self.spec_line_of(loc),
                Resolution::MultipleTargets(locs) => r@.len() == locs@.len() && forall|k: int|
                    0 <= k < locs@.len() ==> (#[trigger] r@[k])@ == self.spec_line_of(locs@[k]),
            },
    {
        match &self.resolution {
            Resolution::Unresolved => Vec::new(),
            Resolution::SingleTarget(loc) => {
                let mut lines: Vec<String> = Vec::new();
                lines.push(pretty_print_location(self, loc));
                lines
            },
            Resolution::MultipleTargets(locs) => {
                let mut lines: Vec<String> = Vec::new();
                let n = locs.len();
                let mut k: usize = 0;
                while k < n
                    invariant
                        k <= n,
                        n == locs@.len(),
                        self.call.call_span.start.row < usize::MAX,
                        self.call.call_span.start.column < usize::MAX,
                        self.resolution matches Resolution::MultipleTargets(l) && l@ == locs@,
                        lines@.len() == k,
                        forall|m: int|
                            0 <= m < k ==> (#[trigger] lines@[m])@ == self.spec_line_of(locs@[m]),
                    decreases n - k,
                {
                    lines.push(pretty_print_location(self, &locs[k]));
                    k = k + 1;
                }
                lines
            },
        }
    }
}

} // verus!
