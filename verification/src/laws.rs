//! The library's general guarantees, stated in one place and proved from
//! the definitions the operations' contracts are written over.

use vstd::prelude::*;

use crate::commit::{commit_wf, id_input, make_commit, CommitView};
use crate::digest::sha256_hex;
use crate::log::{
    first_match, id_in_log, ids_printable, lemma_first_match, lemma_first_match_push, EvolutionLog,
};
use crate::operation::{hash_input, op_content_hash, Operation};

verus! {

/// The cursor always names a commit present in the history: this holds of
/// every well-formed log, so after construction and after every operation,
/// including failed ones.
pub proof fn lemma_cursor_names_commit(e: &EvolutionLog)
    requires
        e.wf(),
    ensures
        id_in_log(e.oplog@, e.cursor@),
{
}

/// Fingerprinting is deterministic: operations equal value-by-value are
/// fingerprinted from the same text and so to the same fingerprint.
pub proof fn lemma_hash_deterministic(a: &Operation, b: &Operation)
    requires
        a@ == b@,
    ensures
        hash_input(a@) == hash_input(b@),
        op_content_hash(a@) == op_content_hash(b@),
{
}

/// In a well-formed commit the two derived fields are exactly the digests
/// of their inputs: the content hash fingerprints the operation, and the
/// identity fingerprints the content hash chained with the parent.
pub proof fn lemma_commit_identities(c: CommitView)
    requires
        commit_wf(c),
    ensures
        c.content_hash == sha256_hex(hash_input(c.operation)),
        c.id == sha256_hex(id_input(c.content_hash, c.parent)),
{
}

/// Every commit of a well-formed log is itself well formed, so its derived
/// fields obey `lemma_commit_identities`.
pub proof fn lemma_log_commits_wf(e: &EvolutionLog, i: int)
    requires
        e.wf(),
        0 <= i < e.oplog@.len(),
    ensures
        commit_wf(e.oplog@[i]),
{
}

/// A well-formed log can always be rendered: every identity in it is a full
/// 64-character fingerprint, so in particular long enough to prefix.
pub proof fn lemma_wf_log_is_printable(e: &EvolutionLog)
    requires
        e.wf(),
    ensures
        ids_printable(e.oplog@),
{
}

/// A successful cherry-pick appends a commit that records the source's
/// operation value but is chained from the cursor. Whenever the cursor is
/// not the source's own parent, the replay is therefore a genuinely new
/// commit, not a copy of the source; when the two coincide, so do the
/// commits, derived identity included.
pub proof fn lemma_replay_differs_from_source(
    log: Seq<CommitView>,
    cursor: Seq<char>,
    source: Seq<char>,
)
    requires
        id_in_log(log, source),
        cursor != log[first_match(log, source)].parent,
    ensures
        ({
            let picked = log[first_match(log, source)];
            let replay = make_commit(picked.operation, cursor);
            &&& replay.operation == picked.operation
            &&& replay.parent == cursor
            &&& replay != picked
        }),
{
    lemma_first_match(log, source);
}

/// Cherry-picking the same source twice in a row appends two commits that
/// carry value-equal operations; the first is chained from the starting
/// cursor and the second from the first new commit's identity, so the two
/// replays record distinct parents whenever those two fingerprints differ.
pub proof fn lemma_cherry_pick_twice(log: Seq<CommitView>, cursor: Seq<char>, source: Seq<char>)
    requires
        id_in_log(log, source),
    ensures
        ({
            let c1 = make_commit(log[first_match(log, source)].operation, cursor);
            let log1 = log.push(c1);
            let c2 = make_commit(log1[first_match(log1, source)].operation, c1.id);
            &&& c2.operation == c1.operation
            &&& c1.parent == cursor
            &&& c2.parent == c1.id
        }),
{
    lemma_first_match(log, source);
    let k = first_match(log, source);
    let c1 = make_commit(log[k].operation, cursor);
    lemma_first_match_push(log, source, c1);
    assert(log.push(c1)[k] == log[k]);
}

} // verus!
