//! The interplay between the syntax walker and the protocol session:
//! turning call sites into semantic queries, and the policies the resolver
//! applies while doing so.

use vstd::prelude::*;
use vstd::string::StringSliceAdditionalSpecFns;

use crate::call_node::CallNode;
use crate::jsonrpc::spec_request_json;
use crate::location::Position;
use crate::location::TargetLocation;
use crate::lsp::spec_query_refusal;
use crate::lsp::Session;
use crate::lsp::SessionError;
use crate::span::Point;
use crate::text::spec_dec_chars;
use crate::text::u64_to_string;

verus! {

/// A tree position as the wire protocol counts it: the same zero-based row
/// and column, narrowed to the protocol's integer width.
pub fn point_to_position(point: Point) -> (r: Position)
    requires
        point.row <= u32::MAX,
        point.column <= u32::MAX,
    ensures
        r.line == point.row,
        r.character == point.column,
{
    Position { line: point.row as u32, character: point.column as u32 }
}

/// Whether a path can be embedded verbatim in the wire identifier format:
/// no spaces, quotes, backslashes or control bytes.  A file whose path
/// fails this test is skipped with a recorded diagnostic rather than sent.
pub open spec fn spec_wire_safe(bytes: Seq<u8>) -> bool {
    forall|m: int|
        0 <= m < bytes.len() ==> {
            let x = #[trigger] bytes[m];
            x != 32 && x != 34 && x != 92 && x >= 32
        }
}

/// Tests whether `path` can be embedded verbatim in a wire identifier.
pub fn path_is_wire_safe(path: &str) -> (r: bool)
    ensures
        r == spec_wire_safe(path.spec_bytes()),
{
    let bytes = path.as_bytes();
    let n = bytes.len();
    let mut m: usize = 0;
    while m < n
        invariant
            m <= n,
            n == path.spec_bytes().len(),
            bytes@ == path.spec_bytes(),
            forall|q: int|
                0 <= q < m ==> {
                    let x = #[trigger] path.spec_bytes()[q];
                    x != 32 && x != 34 && x != 92 && x >= 32
                },
        decreases n - m,
    {
        let x = bytes[m];
        if x == 32 || x == 34 || x == 92 || x < 32 {
            return false;
        }
        m = m + 1;
    }
    true
}

/// The params document of a position-in-document request:
/// `{"textDocument":{"uri":"<uri>"},"position":{"line":<l>,
/// "character":<c>}}`.
pub open spec fn spec_position_params(uri: Seq<char>, line: nat, character: nat) -> Seq<char> {
    "{\"textDocument\":{\"uri\":\""@ + uri + "\"},\"position\":{\"line\":"@ + spec_dec_chars(line)
        + ",\"character\":"@ + spec_dec_chars(character) + "}}"@
}

/// Builds the params document asking about `position` in the document at
/// `uri`.  The URI is embedded verbatim; pass only URIs that
/// [`path_is_wire_safe`] accepted.
pub fn build_position_params(uri: &str, position: Position) -> (r: String)
    ensures
        r@ == spec_position_params(uri@, position.line as nat, position.character as nat),
{
    let mut params = String::from_str("{\"textDocument\":{\"uri\":\"");
    params.append(uri);
    params.append("\"},\"position\":{\"line\":");
    let line_str = u64_to_string(position.line as u64);
    params.append(line_str.as_str());
    params.append(",\"character\":");
    let char_str = u64_to_string(position.character as u64);
    params.append(char_str.as_str());
    params.append("}}");
    proof {
        assert(params@ =~= spec_position_params(
            uri@,
            position.line as nat,
            position.character as nat,
        ));
    }
    params
}

/// Requests go-to-definition for a call site's anchor node.
///
/// The query anchors at the start of the call's goto-definition span.  The
/// session must be ready and the document open; the request is returned
/// with its assigned id, for the caller to frame, send, and await.
pub fn goto_definition_for_node(session: &mut Session, uri: &str, call: &CallNode) -> (r: Result<
    (u64, String),
    SessionError,
>)
    requires
        old(session).wf(),
        call.goto_definition_span.start.row <= u32::MAX,
        call.goto_definition_span.start.column <= u32::MAX,
    ensures
        final(session).wf(),
        final(session).spec_state() == old(session).spec_state(),
        final(session).spec_docs() == old(session).spec_docs(),
        match r {
            Ok((id, message)) => {
                &&& id == old(session).spec_next_id()
                &&& final(session).spec_assigned() == old(session).spec_assigned().push(id)
                &&& message@ == spec_request_json(
                    id as nat,
                    "textDocument/definition"@,
                    spec_position_params(
                        uri@,
                        call.goto_definition_span.start.row as nat,
                        call.goto_definition_span.start.column as nat,
                    ),
                )
            },
            Err(e) => {
                &&& *final(session) == *old(session)
                &&& spec_query_refusal(*old(session), uri@, e)
            },
        },
{
    let position = point_to_position(call.goto_definition_span.start);
    let params = build_position_params(uri, position);
    session.query_request(uri, "textDocument/definition", params.as_str())
}

/// Requests the call-hierarchy item at a declaration's name node, the
/// first step of a call-hierarchy walk.
pub fn call_hierarchy_prepare_request(
    session: &mut Session,
    uri: &str,
    position: Position,
) -> (r: Result<(u64, String), SessionError>)
    requires
        old(session).wf(),
    ensures
        final(session).wf(),
        final(session).spec_state() == old(session).spec_state(),
        final(session).spec_docs() == old(session).spec_docs(),
        match r {
            Ok((id, message)) => {
                &&& id == old(session).spec_next_id()
                &&& final(session).spec_assigned() == old(session).spec_assigned().push(id)
                &&& message@ == spec_request_json(
                    id as nat,
                    "textDocument/prepareCallHierarchy"@,
                    spec_position_params(uri@, position.line as nat, position.character as nat),
                )
            },
            Err(e) => {
                &&& *final(session) == *old(session)
                &&& spec_query_refusal(*old(session), uri@, e)
            },
        },
{
    let params = build_position_params(uri, position);
    session.query_request(uri, "textDocument/prepareCallHierarchy", params.as_str())
}

/// The params document of a call-hierarchy traversal step: the item the
/// server handed back from the prepare step, verbatim.
pub open spec fn spec_hierarchy_item_params(item_json: Seq<char>) -> Seq<char> {
    "{\"item\":"@ + item_json + "}"@
}

/// Requests the outgoing calls of a prepared call-hierarchy item.
///
/// `item_json` is the serialised item from the prepare step's answer;
/// `uri` is the open document the walk is anchored in.
pub fn call_hierarchy_outgoing_request(session: &mut Session, uri: &str, item_json: &str) -> (r:
    Result<(u64, String), SessionError>)
    requires
        old(session).wf(),
    ensures
        final(session).wf(),
        final(session).spec_state() == old(session).spec_state(),
        final(session).spec_docs() == old(session).spec_docs(),
        match r {
            Ok((id, message)) => {
                &&& id == old(session).spec_next_id()
                &&& final(session).spec_assigned() == old(session).spec_assigned().push(id)
                &&& message@ == spec_request_json(
                    id as nat,
                    "callHierarchy/outgoingCalls"@,
                    spec_hierarchy_item_params(item_json@),
                )
            },
            Err(e) => {
                &&& *final(session) == *old(session)
                &&& spec_query_refusal(*old(session), uri@, e)
            },
        },
{
    let mut params = String::from_str("{\"item\":");
    params.append(item_json);
    params.append("}");
    proof {
        assert(params@ =~= spec_hierarchy_item_params(item_json@));
    }
    session.query_request(uri, "callHierarchy/outgoingCalls", params.as_str())
}

/// The params document of a whole-document request: the document alone.
pub open spec fn spec_document_params(uri: Seq<char>) -> Seq<char> {
    "{\"textDocument\":{\"uri\":\""@ + uri + "\"}}"@
}

/// Requests the symbol outline of an open document.
pub fn document_symbol_request(session: &mut Session, uri: &str) -> (r: Result<
    (u64, String),
    SessionError,
>)
    requires
        old(session).wf(),
    ensures
        final(session).wf(),
        final(session).spec_state() == old(session).spec_state(),
        final(session).spec_docs() == old(session).spec_docs(),
        match r {
            Ok((id, message)) => {
                &&& id == old(session).spec_next_id()
                &&& final(session).spec_assigned() == old(session).spec_assigned().push(id)
                &&& message@ == spec_request_json(
                    id as nat,
                    "textDocument/documentSymbol"@,
                    spec_document_params(uri@),
                )
            },
            Err(e) => {
                &&& *final(session) == *old(session)
                &&& spec_query_refusal(*old(session), uri@, e)
            },
        },
{
    let mut params = String::from_str("{\"textDocument\":{\"uri\":\"");
    params.append(uri);
    params.append("\"}}");
    proof {
        assert(params@ =~= spec_document_params(uri@));
    }
    session.query_request(uri, "textDocument/documentSymbol", params.as_str())
}

/// The params document of a references request: a position-in-document
/// request that also asks for the declaration itself.
pub open spec fn spec_references_params(uri: Seq<char>, line: nat, character: nat) -> Seq<char> {
    "{\"textDocument\":{\"uri\":\""@ + uri + "\"},\"position\":{\"line\":"@ + spec_dec_chars(line)
        + ",\"character\":"@ + spec_dec_chars(character)
        + "},\"context\":{\"includeDeclaration\":true}}"@
}

/// Requests all references to the symbol at `position`.
pub fn references_request(session: &mut Session, uri: &str, position: Position) -> (r: Result<
    (u64, String),
    SessionError,
>)
    requires
        old(session).wf(),
    ensures
        final(session).wf(),
        final(session).spec_state() == old(session).spec_state(),
        final(session).spec_docs() == old(session).spec_docs(),
        match r {
            Ok((id, message)) => {
                &&& id == old(session).spec_next_id()
                &&& final(session).spec_assigned() == old(session).spec_assigned().push(id)
                &&& message@ == spec_request_json(
                    id as nat,
                    "textDocument/references"@,
                    spec_references_params(uri@, position.line as nat, position.character as nat),
                )
            },
            Err(e) => {
                &&& *final(session) == *old(session)
                &&& spec_query_refusal(*old(session), uri@, e)
            },
        },
{
    let mut params = String::from_str("{\"textDocument\":{\"uri\":\"");
    params.append(uri);
    params.append("\"},\"position\":{\"line\":");
    let line_str = u64_to_string(position.line as u64);
    params.append(line_str.as_str());
    params.append(",\"character\":");
    let char_str = u64_to_string(position.character as u64);
    params.append(char_str.as_str());
    params.append("},\"context\":{\"includeDeclaration\":true}}");
    proof {
        assert(params@ =~= spec_references_params(
            uri@,
            position.line as nat,
            position.character as nat,
        ));
    }
    session.query_request(uri, "textDocument/references", params.as_str())
}

/// A call found in a file together with every definition location the
/// server reported for it.
#[derive(Clone, Debug)]
pub struct CallDefinition {
    /// The path of the file containing the call.
    pub file_path: String,
    /// The call site, with its spans copied out of the tree.
    pub call: CallNode,
    /// The definition locations the server reported.
    pub definition: Vec<TargetLocation>,
}

// --- the retry policy -----------------------------------------------------

/// The sum of a sequence of delays.
pub open spec fn spec_sum(s: Seq<u64>) -> int
    decreases s.len(),
{
    if s.len() == 0 {
        0
    } else {
        spec_sum(s.drop_last()) + s.last()
    }
}

/// The delays, in milliseconds, before each query attempt for one call
/// site.
///
/// The first query against a freshly opened file is granted three
/// attempts with rising delays, because the server frequently has not
/// finished indexing the file; later queries in the same file get exactly
/// one attempt.  The budget is fixed and finite: a query that stays empty
/// ends after the last attempt.
pub fn retry_delays_ms(first_query_in_file: bool) -> (r: Vec<u64>)
    ensures
        first_query_in_file ==> r@ == seq![0u64, 50u64, 250u64],
        !first_query_in_file ==> r@ == seq![0u64],
        r@.len() >= 1,
{
    let mut delays: Vec<u64> = Vec::new();
    delays.push(0);
    if first_query_in_file {
        delays.push(50);
        delays.push(250);
        proof {
            assert(delays@ =~= seq![0u64, 50u64, 250u64]);
        }
    } else {
        proof {
            assert(delays@ =~= seq![0u64]);
        }
    }
    delays
}

/// The delays, in milliseconds, before each attempt to prepare a call
/// hierarchy at one symbol.
///
/// While a freshly opened file may still be loading — its first symbols —
/// the preparation is granted six attempts with linearly rising delays;
/// once the file is settled, one attempt.
pub fn hierarchy_retry_delays_ms(enable_retries: bool) -> (r: Vec<u64>)
    ensures
        enable_retries ==> r@ == seq![0u64, 100u64, 200u64, 300u64, 400u64, 500u64],
        !enable_retries ==> r@ == seq![0u64],
        r@.len() >= 1,
{
    let mut delays: Vec<u64> = Vec::new();
    delays.push(0);
    if enable_retries {
        delays.push(100);
        delays.push(200);
        delays.push(300);
        delays.push(400);
        delays.push(500);
        proof {
            assert(delays@ =~= seq![0u64, 100u64, 200u64, 300u64, 400u64, 500u64]);
        }
    } else {
        proof {
            assert(delays@ =~= seq![0u64]);
        }
    }
    delays
}

/// Exhausting the retry budget costs exactly the sum of the configured
/// backoff steps: 300 ms for a first query in a file, nothing for later
/// queries.
pub proof fn lemma_retry_budget()
    ensures
        spec_sum(seq![0u64, 50u64, 250u64]) == 300,
        spec_sum(seq![0u64]) == 0,
{
    let single = seq![0u64];
    let pair = seq![0u64, 50u64];
    let full = seq![0u64, 50u64, 250u64];
    assert(spec_sum(Seq::<u64>::empty()) == 0);
    assert(single.drop_last() =~= Seq::<u64>::empty());
    assert(single.last() == 0);
    assert(spec_sum(single) == 0);
    assert(pair.drop_last() =~= single);
    assert(pair.last() == 50);
    assert(spec_sum(pair) == 50);
    assert(full.drop_last() =~= pair);
    assert(full.last() == 250);
    assert(spec_sum(full) == 300);
}

} // verus!
