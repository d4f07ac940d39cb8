//! A single immutable history entry: one operation bound to its parent's
//! identity and to its own derived identity.

use vstd::prelude::*;
use vstd::string::{StrSliceExecFns, StringExecFns};

use crate::digest::{is_hex_seq, sha256_hex, sha256_hex_digest};
use crate::operation::{op_content_hash, op_pretty, OpView, Operation};
use crate::Sha;

verus! {

/// One history entry. `content_hash` is always the fingerprint of
/// `operation`, and `id` is always the chaining fingerprint derived from
/// `content_hash` and `parent`; `parent` is the empty string for the root
/// commit only.
#[derive(Debug, PartialEq)]
pub struct Commit {
    pub operation: Operation,
    pub content_hash: Sha,
    pub parent: Sha,
    pub id: Sha,
}

/// The mathematical model of a commit.
pub struct CommitView {
    pub operation: OpView,
    pub content_hash: Seq<char>,
    pub parent: Seq<char>,
    pub id: Seq<char>,
}

impl View for Commit {
    type V = CommitView;

    open spec fn view(&self) -> CommitView {
        CommitView {
            operation: self.operation@,
            content_hash: self.content_hash@,
            parent: self.parent@,
            id: self.id@,
        }
    }
}

impl Clone for Commit {
    fn clone(&self) -> (r: Self)
        ensures
            r == *self,
    {
        Commit {
            operation: self.operation.clone(),
            content_hash: self.content_hash.clone(),
            parent: self.parent.clone(),
            id: self.id.clone(),
        }
    }
}

/// The text a commit's identity is hashed from: the operation's content
/// fingerprint, a dash, then the parent's identity.
pub open spec fn id_input(content_hash: Seq<char>, parent: Seq<char>) -> Seq<char> {
    content_hash + "-"@ + parent
}

/// The derived identity of a commit recording `op` chained from `parent`.
pub open spec fn spec_commit_id(op: OpView, parent: Seq<char>) -> Seq<char> {
    sha256_hex(id_input(op_content_hash(op), parent))
}

/// The commit that records `op` chained from `parent`: every field is a
/// function of those two values alone.
pub open spec fn make_commit(op: OpView, parent: Seq<char>) -> CommitView {
    CommitView {
        operation: op,
        content_hash: op_content_hash(op),
        parent: parent,
        id: spec_commit_id(op, parent),
    }
}

/// A commit is well formed when both derived fields are exactly the
/// fingerprints of their inputs, and both have digest shape (64 lowercase
/// hexadecimal characters).
pub open spec fn commit_wf(c: CommitView) -> bool {
    &&& c.content_hash == op_content_hash(c.operation)
    &&& c.id == sha256_hex(id_input(c.content_hash, c.parent))
    &&& c.content_hash.len() == 64
    &&& is_hex_seq(c.content_hash)
    &&& c.id.len() == 64
    &&& is_hex_seq(c.id)
}

/// The creation marker recording `nonce` that a root commit carries.
pub open spec fn root_op_with(nonce: Seq<char>) -> OpView {
    OpView::Create { nonce }
}

/// The root commit whose creation marker carries `nonce`: that operation
/// with an empty parent.
pub open spec fn root_commit_with(nonce: Seq<char>) -> CommitView {
    make_commit(root_op_with(nonce), Seq::<char>::empty())
}

/// The operation the default root commit records.
pub open spec fn root_op() -> OpView {
    root_op_with("Hello World"@)
}

/// The default root commit, carrying the fixed placeholder nonce.
pub open spec fn root_commit() -> CommitView {
    root_commit_with("Hello World"@)
}

/// The one-line diagnostic rendering of a commit: the first ten characters
/// of its identity, then its operation's summary.
pub open spec fn commit_pretty(c: CommitView) -> Seq<char> {
    c.id.subrange(0, 10) + ": "@ + op_pretty(c.operation)
}

/// Computes the chaining identity of a commit that would record `operation`
/// under `parent`.
pub(crate) fn id_from_op_and_parent(operation: &Operation, parent: &Sha) -> (r: Sha)
    ensures
        r@ == spec_commit_id(operation@, parent@),
        r@.len() == 64,
        is_hex_seq(r@),
{
    let mut input = operation.hash();
    input.append("-");
    input.append(parent.as_str());
    sha256_hex_digest(input.as_str())
}

impl Commit {
    /// Constructs a root commit whose creation marker carries `nonce`.
    /// Give every session its own nonce where fresh logs must not share a
    /// root identity; two roots with equal nonces are identical.
    pub fn init_with_nonce(nonce: String) -> (r: Self)
        ensures
            r@ == root_commit_with(nonce@),
            commit_wf(r@),
    {
        let init_op = Operation::Create { nonce };
        let parent_sha = String::new();
        let id = id_from_op_and_parent(&init_op, &parent_sha);
        let content_hash = init_op.hash();
        Commit { id, content_hash, operation: init_op, parent: parent_sha }
    }

    /// Constructs the default root commit. Its nonce is a fixed placeholder,
    /// so every log seeded this way has the same root identity; use
    /// `init_with_nonce` where that matters.
    pub fn init() -> (r: Self)
        ensures
            r@ == root_commit(),
            commit_wf(r@),
    {
        Self::init_with_nonce(String::from_str("Hello World"))
    }

    /// Renders the commit's one-line summary.
    pub fn pretty_print(&self) -> (r: String)
        requires
            self@.id.len() >= 10,
        ensures
            r@ == commit_pretty(self@),
    {
        let mut s = String::from_str(self.id.as_str().substring_char(0, 10));
        s.append(": ");
        let op_text = self.operation.pretty_print();
        s.append(op_text.as_str());
        s
    }
}

} // verus!
