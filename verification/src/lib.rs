//! An append-only, content-addressed operation log for a parametric design
//! document: an immutable, hash-linked chain of commits together with a
//! mutable cursor naming the current position in that chain.

mod commit;
mod digest;
mod laws;
mod log;
mod operation;

pub use commit::{
    commit_pretty, commit_wf, id_input, make_commit, root_commit, root_commit_with, root_op,
    root_op_with, spec_commit_id, Commit, CommitView,
};
pub use digest::is_hex_seq;
pub use digest::sha256_hex;
pub use laws::{
    lemma_cherry_pick_twice, lemma_commit_identities, lemma_cursor_names_commit,
    lemma_hash_deterministic, lemma_log_commits_wf, lemma_replay_differs_from_source,
    lemma_wf_log_is_printable,
};
pub use log::{
    first_match, id_in_log, ids_printable, lemma_first_match, lemma_first_match_push, log_pretty,
    log_wf, not_found_msg, EvolutionLog, OpLog,
};
pub use operation::{hash_input, op_content_hash, op_pretty, OpView, Operation, Plane, Scalar};

use vstd::prelude::*;

verus! {

/// A fingerprint: the hexadecimal digest string that identifies an
/// operation's content or a commit.
pub type Sha = String;

} // verus!
