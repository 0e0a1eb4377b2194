//! The protocol session state machine.
//!
//! A [`Session`] models one managed lifecycle of an external
//! analysis-server subprocess: `NotStarted → Starting → Ready → Stopped`,
//! with the handshake gating all document and query traffic, a monotonic
//! request-id counter, and the set of documents announced as open.  The
//! session produces the exact protocol messages to send; performing the
//! process and pipe operations is its caller's business.

use vstd::prelude::*;

use crate::jsonrpc::spec_notification_json;
use crate::jsonrpc::spec_request_json;
use crate::jsonrpc::build_notification;
use crate::jsonrpc::build_request;
use crate::text::str_eq;

verus! {

/// Configuration for analysis-server startup.
#[derive(Debug, Clone)]
pub struct LspServerConfig {
    /// Additional arguments to pass to the server.
    pub args: Vec<String>,
    /// Environment variables to set for the server.
    pub env_vars: Vec<(String, String)>,
}

impl Default for LspServerConfig {
    /// No extra arguments and no extra environment.
    fn default() -> (r: LspServerConfig)
        ensures
            r.args@.len() == 0,
            r.env_vars@.len() == 0,
    {
        LspServerConfig { args: Vec::new(), env_vars: Vec::new() }
    }
}

/// The URI of a file path: `file://` followed by the path.
pub open spec fn spec_uri_of(path: Seq<char>) -> Seq<char> {
    "file://"@ + path
}

/// Builds the `file://` URI of a path.
pub fn uri_from_path(path: &str) -> (r: String)
    ensures
        r@ == spec_uri_of(path@),
{
    let mut uri = String::from_str("file://");
    uri.append(path);
    proof {
        assert(uri@ =~= spec_uri_of(path@));
    }
    uri
}

/// The lifecycle states of a session.
#[derive(Clone, Copy, Debug, PartialEq, Eq, Structural)]
pub enum SessionState {
    /// No process has been spawned yet.
    NotStarted,
    /// The process is up, the handshake not yet complete.
    Starting,
    /// The handshake is done; documents and queries may flow.
    Ready,
    /// The session is over; terminal.
    Stopped,
}

/// Why a session refused an operation.
#[derive(Clone, Copy, Debug, PartialEq, Eq, Structural)]
pub enum SessionError {
    /// The operation is not valid in the session's current state.
    InvalidState,
    /// The request-id counter is exhausted.
    IdsExhausted,
    /// A query was asked about a document that is not open.
    DocumentNotOpen,
}

/// What [`Session::stop`] asks its caller to do.
#[derive(Clone, Copy, Debug, PartialEq, Eq, Structural)]
pub enum StopAction {
    /// Terminate the subprocess.
    KillProcess,
    /// Nothing: the session was already stopped.
    AlreadyStopped,
}

/// Every id in `ids` is below `next`, and `ids` is strictly increasing.
pub open spec fn spec_ids_wf(ids: Seq<u64>, next: u64) -> bool {
    &&& forall|k: int| 0 <= k < ids.len() ==> #[trigger] ids[k] < next
    &&& forall|k: int, l: int| 0 <= k < l < ids.len() ==> #[trigger] ids[k] < #[trigger] ids[l]
}

/// No URI occurs twice among the open documents.
pub open spec fn spec_docs_wf(docs: Seq<String>) -> bool {
    forall|k: int, l: int|
        0 <= k < l < docs.len() ==> (#[trigger] docs[k])@ != (#[trigger] docs[l])@
}

/// Handing out the counter's value and stepping the counter keeps the id
/// history well formed.
proof fn lemma_ids_wf_push(ids: Seq<u64>, next: u64, id: u64)
    requires
        spec_ids_wf(ids, next),
        id == next,
        next < u64::MAX,
    ensures
        spec_ids_wf(ids.push(id), (next + 1) as u64),
{
    let grown = ids.push(id);
    assert forall|k: int| 0 <= k < grown.len() implies #[trigger] grown[k] < next + 1 by {
        if k < ids.len() {
            assert(grown[k] == ids[k]);
        } else {
            assert(grown[k] == id);
        }
    }
    assert forall|k: int, l: int|
        0 <= k < l < grown.len() implies #[trigger] grown[k] < #[trigger] grown[l] by {
        assert(grown[k] == ids[k]);
        if l < ids.len() {
            assert(grown[l] == ids[l]);
        } else {
            assert(grown[l] == id);
        }
    }
}

/// Opening a URI that is not yet open keeps the open set free of
/// duplicates.
proof fn lemma_docs_wf_push(docs: Seq<String>, d: String)
    requires
        spec_docs_wf(docs),
        forall|k: int| 0 <= k < docs.len() ==> (#[trigger] docs[k])@ != d@,
    ensures
        spec_docs_wf(docs.push(d)),
{
    let grown = docs.push(d);
    assert forall|k: int, l: int|
        0 <= k < l < grown.len() implies (#[trigger] grown[k])@ != (#[trigger] grown[l])@ by {
        assert(grown[k] == docs[k]);
        if l < docs.len() {
            assert(grown[l] == docs[l]);
        } else {
            assert(grown[l] == d);
        }
    }
}

/// Removing one entry keeps the open set free of duplicates.
proof fn lemma_docs_wf_remove(docs: Seq<String>, at: int)
    requires
        spec_docs_wf(docs),
        0 <= at < docs.len(),
    ensures
        spec_docs_wf(docs.remove(at)),
{
    let shrunk = docs.remove(at);
    assert forall|k: int, l: int|
        0 <= k < l < shrunk.len() implies (#[trigger] shrunk[k])@ != (#[trigger] shrunk[l])@ by {
        let k0 = if k < at {
            k
        } else {
            k + 1
        };
        let l0 = if l < at {
            l
        } else {
            l + 1
        };
        assert(shrunk[k] == docs[k0]);
        assert(shrunk[l] == docs[l0]);
    }
}

/// Exactly when a session refuses a query about the document at `uri`
/// with error `e`: the wrong state, a document that is not open, or an
/// exhausted id counter — in that order.  A ready session with the
/// document open and counter headroom refuses nothing.
pub open spec fn spec_query_refusal(s: Session, uri: Seq<char>, e: SessionError) -> bool {
    match e {
        SessionError::InvalidState => s.spec_state() != SessionState::Ready,
        SessionError::DocumentNotOpen => s.spec_state() == SessionState::Ready && !s.spec_doc_open(
            uri,
        ),
        SessionError::IdsExhausted => s.spec_state() == SessionState::Ready && s.spec_doc_open(uri)
            && s.spec_next_id() == u64::MAX,
    }
}

/// One managed analysis-server session.
pub struct Session {
    state: SessionState,
    next_id: u64,
    open_docs: Vec<String>,
    assigned: Ghost<Seq<u64>>,
}

impl Session {
    pub closed spec fn spec_state(self) -> SessionState {
        self.state
    }

    pub closed spec fn spec_next_id(self) -> u64 {
        self.next_id
    }

    /// The ids handed out so far, oldest first.
    pub closed spec fn spec_assigned(self) -> Seq<u64> {
        self.assigned@
    }

    pub closed spec fn spec_docs(self) -> Seq<String> {
        self.open_docs@
    }

    /// Whether a document with this URI is in the open set.
    pub open spec fn spec_doc_open(self, uri: Seq<char>) -> bool {
        exists|k: int| 0 <= k < self.spec_docs().len() && self.spec_docs()[k]@ == uri
    }

    /// The session invariant: every id handed out is below the counter,
    /// ids were handed out in strictly increasing order, and no document
    /// is open twice.
    pub open spec fn wf(self) -> bool {
        &&& spec_ids_wf(self.spec_assigned(), self.spec_next_id())
        &&& spec_docs_wf(self.spec_docs())
    }

    /// A fresh session: not started, counter at 1, no open documents, no
    /// ids assigned.
    pub fn new() -> (s: Session)
        ensures
            s.wf(),
            s.spec_state() == SessionState::NotStarted,
            s.spec_next_id() == 1,
            s.spec_assigned() == Seq::<u64>::empty(),
            s.spec_docs() == Seq::<String>::empty(),
    {
        Session {
            state: SessionState::NotStarted,
            next_id: 1,
            open_docs: Vec::new(),
            assigned: Ghost(Seq::empty()),
        }
    }

    /// Hands out the next request id.  Every id is strictly greater than
    /// all ids handed out before.
    fn take_id(&mut self) -> (r: u64)
        requires
            old(self).wf(),
            old(self).spec_next_id() < u64::MAX,
        ensures
            final(self).wf(),
            r == old(self).spec_next_id(),
            final(self).spec_next_id() == old(self).spec_next_id() + 1,
            final(self).spec_assigned() == old(self).spec_assigned().push(r),
            final(self).spec_state() == old(self).spec_state(),
            final(self).spec_docs() == old(self).spec_docs(),
    {
        let id = self.next_id;
        self.next_id = self.next_id + 1;
        proof {
            self.assigned@ = self.assigned@.push(id);
            lemma_ids_wf_push(old(self).spec_assigned(), old(self).spec_next_id(), id);
        }
        id
    }

    /// Marks the subprocess as spawned: `NotStarted → Starting`.
    pub fn begin_start(&mut self) -> (r: Result<(), SessionError>)
        requires
            old(self).wf(),
        ensures
            final(self).wf(),
            final(self).spec_next_id() == old(self).spec_next_id(),
            final(self).spec_assigned() == old(self).spec_assigned(),
            final(self).spec_docs() == old(self).spec_docs(),
            match r {
                Ok(()) => {
                    &&& old(self).spec_state() == SessionState::NotStarted
                    &&& final(self).spec_state() == SessionState::Starting
                },
                Err(e) => {
                    &&& e == SessionError::InvalidState
                    &&& old(self).spec_state() != SessionState::NotStarted
                    &&& *final(self) == *old(self)
                },
            },
    {
        match self.state {
            SessionState::NotStarted => {
                self.state = SessionState::Starting;
                Ok(())
            },
            _ => Err(SessionError::InvalidState),
        }
    }

    /// The initialize request that opens the handshake.  Valid only while
    /// `Starting`; assigns a fresh id and leaves the state unchanged until
    /// the matching response has been read.
    pub fn initialize_request(&mut self, params_json: &str) -> (r: Result<
        (u64, String),
        SessionError,
    >)
        requires
            old(self).wf(),
        ensures
            final(self).wf(),
            final(self).spec_state() == old(self).spec_state(),
            final(self).spec_docs() == old(self).spec_docs(),
            match r {
                Ok((id, message)) => {
                    &&& old(self).spec_state() == SessionState::Starting
                    &&& old(self).spec_next_id() < u64::MAX
                    &&& id == old(self).spec_next_id()
                    &&& final(self).spec_next_id() == old(self).spec_next_id() + 1
                    &&& final(self).spec_assigned() == old(self).spec_assigned().push(id)
                    &&& message@ == spec_request_json(id as nat, "initialize"@, params_json@)
                },
                Err(e) => {
                    &&& *final(self) == *old(self)
                    &&& match e {
                        SessionError::InvalidState => old(self).spec_state()
                            != SessionState::Starting,
                        SessionError::IdsExhausted => old(self).spec_state()
                            == SessionState::Starting && old(self).spec_next_id() == u64::MAX,
                        SessionError::DocumentNotOpen => false,
                    }
                },
            },
    {
        match self.state {
            SessionState::Starting => {},
            _ => {
                return Err(SessionError::InvalidState);
            },
        }
        if self.next_id == u64::MAX {
            return Err(SessionError::IdsExhausted);
        }
        let id = self.take_id();
        let message = build_request(id, "initialize", params_json);
        Ok((id, message))
    }

    /// The fire-and-forget acknowledgement that completes the handshake:
    /// `Starting → Ready`, returning the `initialized` notification to
    /// send.
    pub fn handshake_complete(&mut self, params_json: &str) -> (r: Result<String, SessionError>)
        requires
            old(self).wf(),
        ensures
            final(self).wf(),
            final(self).spec_next_id() == old(self).spec_next_id(),
            final(self).spec_assigned() == old(self).spec_assigned(),
            final(self).spec_docs() == old(self).spec_docs(),
            match r {
                Ok(message) => {
                    &&& old(self).spec_state() == SessionState::Starting
                    &&& final(self).spec_state() == SessionState::Ready
                    &&& message@ == spec_notification_json("initialized"@, params_json@)
                },
                Err(e) => {
                    &&& e == SessionError::InvalidState
                    &&& old(self).spec_state() != SessionState::Starting
                    &&& *final(self) == *old(self)
                },
            },
    {
        match self.state {
            SessionState::Starting => {
                self.state = SessionState::Ready;
                Ok(build_notification("initialized", params_json))
            },
            _ => Err(SessionError::InvalidState),
        }
    }

    /// Whether a document with this URI has been announced as open.
    pub fn is_doc_open(&self, uri: &str) -> (r: bool)
        ensures
            r == self.spec_doc_open(uri@),
    {
        let n = self.open_docs.len();
        let mut k: usize = 0;
        while k < n
            invariant
                k <= n,
                n == self.spec_docs().len(),
                forall|m: int| 0 <= m < k ==> (#[trigger] self.spec_docs()[m])@ != uri@,
            decreases n - k,
        {
            if str_eq(self.open_docs[k].as_str(), uri) {
                return true;
            }
            k = k + 1;
        }
        false
    }

    /// The `textDocument/didOpen` notification announcing a document.
    /// Valid only while `Ready`; enters the URI into the open set (opening
    /// an already-open document leaves the set unchanged).
    pub fn open_document(&mut self, uri: &str, params_json: &str) -> (r: Result<
        String,
        SessionError,
    >)
        requires
            old(self).wf(),
        ensures
            final(self).wf(),
            final(self).spec_state() == old(self).spec_state(),
            final(self).spec_next_id() == old(self).spec_next_id(),
            final(self).spec_assigned() == old(self).spec_assigned(),
            match r {
                Ok(message) => {
                    &&& old(self).spec_state() == SessionState::Ready
                    &&& message@ == spec_notification_json("textDocument/didOpen"@, params_json@)
                    &&& final(self).spec_doc_open(uri@)
                    &&& if old(self).spec_doc_open(uri@) {
                        final(self).spec_docs() == old(self).spec_docs()
                    } else {
                        exists|d: String|
                            d@ == uri@ && final(self).spec_docs() == old(self).spec_docs().push(d)
                    }
                },
                Err(e) => {
                    &&& e == SessionError::InvalidState
                    &&& old(self).spec_state() != SessionState::Ready
                    &&& *final(self) == *old(self)
                },
            },
    {
        match self.state {
            SessionState::Ready => {},
            _ => {
                return Err(SessionError::InvalidState);
            },
        }
        if !self.is_doc_open(uri) {
            let owned = String::from_str(uri);
            proof {
                assert forall|k: int| 0 <= k < old(self).spec_docs().len() implies (
                #[trigger] old(self).spec_docs()[k])@ != owned@ by {
                    assert(!old(self).spec_doc_open(uri@));
                }
                lemma_docs_wf_push(old(self).spec_docs(), owned);
            }
            self.open_docs.push(owned);
            proof {
                let last = self.spec_docs().len() - 1;
                assert(self.spec_docs()[last]@ == uri@);
            }
        }
        Ok(build_notification("textDocument/didOpen", params_json))
    }

    /// The `textDocument/didClose` notification for a document.  Valid
    /// only while `Ready`; removes the URI from the open set.  Closing a
    /// document that is not open still sends the notification — the
    /// external process tolerates it — and leaves the set unchanged.
    pub fn close_document(&mut self, uri: &str, params_json: &str) -> (r: Result<
        String,
        SessionError,
    >)
        requires
            old(self).wf(),
        ensures
            final(self).wf(),
            final(self).spec_state() == old(self).spec_state(),
            final(self).spec_next_id() == old(self).spec_next_id(),
            final(self).spec_assigned() == old(self).spec_assigned(),
            match r {
                Ok(message) => {
                    &&& old(self).spec_state() == SessionState::Ready
                    &&& message@ == spec_notification_json("textDocument/didClose"@, params_json@)
                    &&& !final(self).spec_doc_open(uri@)
                    &&& if old(self).spec_doc_open(uri@) {
                        exists|k: int|
                            0 <= k < old(self).spec_docs().len() && old(self).spec_docs()[k]@
                                == uri@ && final(self).spec_docs() == old(self).spec_docs().remove(
                                k,
                            )
                    } else {
                        final(self).spec_docs() == old(self).spec_docs()
                    }
                },
                Err(e) => {
                    &&& e == SessionError::InvalidState
                    &&& old(self).spec_state() != SessionState::Ready
                    &&& *final(self) == *old(self)
                },
            },
    {
        match self.state {
            SessionState::Ready => {},
            _ => {
                return Err(SessionError::InvalidState);
            },
        }
        let n = self.open_docs.len();
        let mut k: usize = 0;
        while k < n
            invariant
                old(self).wf(),
                old(self).spec_state() == SessionState::Ready,
                *self == *old(self),
                k <= n,
                n == self.spec_docs().len(),
                forall|m: int| 0 <= m < k ==> (#[trigger] self.spec_docs()[m])@ != uri@,
            decreases n - k,
        {
            if str_eq(self.open_docs[k].as_str(), uri) {
                proof {
                    lemma_docs_wf_remove(old(self).spec_docs(), k as int);
                }
                self.open_docs.remove(k);
                proof {
                    let before = old(self).spec_docs();
                    let docs = self.spec_docs();
                    assert(docs == before.remove(k as int));
                    assert forall|m: int| 0 <= m < docs.len() implies (#[trigger] docs[m])@
                        != uri@ by {
                        if m < k {
                            assert(docs[m] == before[m]);
                        } else {
                            assert(docs[m] == before[m + 1]);
                        }
                    }
                }
                return Ok(build_notification("textDocument/didClose", params_json));
            }
            k = k + 1;
        }
        Ok(build_notification("textDocument/didClose", params_json))
    }

    /// A request about an open document: assigns a fresh id and returns
    /// the message.  Valid only while `Ready` and while the document is in
    /// the open set.
    pub fn query_request(&mut self, uri: &str, method: &str, params_json: &str) -> (r: Result<
        (u64, String),
        SessionError,
    >)
        requires
            old(self).wf(),
        ensures
            final(self).wf(),
            final(self).spec_state() == old(self).spec_state(),
            final(self).spec_docs() == old(self).spec_docs(),
            match r {
                Ok((id, message)) => {
                    &&& old(self).spec_state() == SessionState::Ready
                    &&& old(self).spec_doc_open(uri@)
                    &&& old(self).spec_next_id() < u64::MAX
                    &&& id == old(self).spec_next_id()
                    &&& final(self).spec_next_id() == old(self).spec_next_id() + 1
                    &&& final(self).spec_assigned() == old(self).spec_assigned().push(id)
                    &&& message@ == spec_request_json(id as nat, method@, params_json@)
                },
                Err(e) => {
                    &&& *final(self) == *old(self)
                    &&& spec_query_refusal(*old(self), uri@, e)
                },
            },
    {
        match self.state {
            SessionState::Ready => {},
            _ => {
                return Err(SessionError::InvalidState);
            },
        }
        if !self.is_doc_open(uri) {
            return Err(SessionError::DocumentNotOpen);
        }
        if self.next_id == u64::MAX {
            return Err(SessionError::IdsExhausted);
        }
        let id = self.take_id();
        let message = build_request(id, method, params_json);
        Ok((id, message))
    }

    /// Stops the session.  From any live state this is a transition to
    /// `Stopped` and the caller must terminate the subprocess; on a session
    /// already stopped it succeeds and asks for no process operation at
    /// all.
    pub fn stop(&mut self) -> (r: StopAction)
        requires
            old(self).wf(),
        ensures
            final(self).wf(),
            final(self).spec_state() == SessionState::Stopped,
            final(self).spec_next_id() == old(self).spec_next_id(),
            final(self).spec_assigned() == old(self).spec_assigned(),
            final(self).spec_docs() == old(self).spec_docs(),
            r == StopAction::AlreadyStopped <==> old(self).spec_state() == SessionState::Stopped,
            old(self).spec_state() == SessionState::Stopped ==> *final(self) == *old(self),
    {
        match self.state {
            SessionState::Stopped => StopAction::AlreadyStopped,
            _ => {
                self.state = SessionState::Stopped;
                StopAction::KillProcess
            },
        }
    }
}

/// Ids are handed out in strictly increasing order: across a session's
/// lifetime, every assigned request id is strictly greater than all the
/// ids assigned before it.
pub proof fn lemma_ids_strictly_increasing(s: Session, k: int, l: int)
    requires
        s.wf(),
        0 <= k < l < s.spec_assigned().len(),
    ensures
        s.spec_assigned()[k] < s.spec_assigned()[l],
{
}

/// No two assigned request ids are ever equal, so no two in-flight
/// requests can share an id.
pub proof fn lemma_ids_unique(s: Session, k: int, l: int)
    requires
        s.wf(),
        0 <= k < s.spec_assigned().len(),
        0 <= l < s.spec_assigned().len(),
        k != l,
    ensures
        s.spec_assigned()[k] != s.spec_assigned()[l],
{
    if k < l {
        lemma_ids_strictly_increasing(s, k, l);
    } else {
        lemma_ids_strictly_increasing(s, l, k);
    }
}

} // verus!
