//! The ground-truth history (an ordered, append-only sequence of commits)
//! and the stateful log a caller interacts with: that history paired with a
//! cursor naming the current position.

use vstd::prelude::*;
use vstd::string::StringExecFns;

use crate::commit::{
    commit_pretty, commit_wf, id_from_op_and_parent, make_commit, root_commit, root_commit_with,
    spec_commit_id, Commit, CommitView,
};
use crate::operation::Operation;
use crate::Sha;

verus! {

/// The append-only, write-once-per-slot sequence of commits; insertion order
/// is append order and the first element is the root.
#[derive(Debug, Clone, PartialEq)]
pub struct OpLog {
    commits: Vec<Commit>,
}

impl View for OpLog {
    type V = Seq<CommitView>;

    closed spec fn view(&self) -> Seq<CommitView> {
        self.commits@.map_values(|c: Commit| c@)
    }
}

/// Some commit in `log` has identity `id`.
pub open spec fn id_in_log(log: Seq<CommitView>, id: Seq<char>) -> bool {
    exists|i: int| 0 <= i < log.len() && (#[trigger] log[i]).id == id
}

/// The index of the first commit in `log` whose identity is `id`, or
/// `log.len()` if there is none.
pub open spec fn first_match(log: Seq<CommitView>, id: Seq<char>) -> int
    decreases log.len(),
{
    if log.len() == 0 {
        0
    } else if log[0].id == id {
        0
    } else {
        1 + first_match(log.drop_first(), id)
    }
}

/// `first_match` finds the least index carrying `id`, and finds one exactly
/// when some commit carries `id`.
pub proof fn lemma_first_match(log: Seq<CommitView>, id: Seq<char>)
    ensures
        0 <= first_match(log, id) <= log.len(),
        id_in_log(log, id) <==> first_match(log, id) < log.len(),
        first_match(log, id) < log.len() ==> log[first_match(log, id)].id == id,
        forall|j: int| 0 <= j < first_match(log, id) ==> (#[trigger] log[j]).id != id,
    decreases log.len(),
{
    if log.len() == 0 {
    } else if log[0].id == id {
    } else {
        let sub = log.drop_first();
        lemma_first_match(sub, id);
        if id_in_log(log, id) {
            let i = choose|i: int| 0 <= i < log.len() && (#[trigger] log[i]).id == id;
            assert(sub[i - 1] == log[i]);
            assert(id_in_log(sub, id));
        }
        if id_in_log(sub, id) {
            let i = choose|i: int| 0 <= i < sub.len() && (#[trigger] sub[i]).id == id;
            assert(log[i + 1] == sub[i]);
            assert(id_in_log(log, id));
        }
        assert forall|j: int| 0 <= j < first_match(log, id) implies (#[trigger] log[j]).id
            != id by {
            if j > 0 {
                assert(log[j] == sub[j - 1]);
            }
        }
    }
}

/// Appending never disturbs which commit an identity already present is
/// first found at.
pub proof fn lemma_first_match_push(log: Seq<CommitView>, id: Seq<char>, c: CommitView)
    requires
        id_in_log(log, id),
    ensures
        first_match(log.push(c), id) == first_match(log, id),
    decreases log.len(),
{
    lemma_first_match(log, id);
    if log[0].id == id {
        assert(log.push(c)[0] == log[0]);
    } else {
        let sub = log.drop_first();
        let i = choose|i: int| 0 <= i < log.len() && (#[trigger] log[i]).id == id;
        assert(sub[i - 1] == log[i]);
        assert(id_in_log(sub, id));
        lemma_first_match_push(sub, id, c);
        assert(log.push(c).drop_first() =~= sub.push(c));
        assert(log.push(c)[0] == log[0]);
    }
}

/// Ground-truth history shape: at least the root, whose operation is the
/// creation marker and whose parent is empty; every entry well formed; and
/// every later entry chained to the identity of an earlier one.
pub open spec fn log_wf(log: Seq<CommitView>) -> bool {
    &&& log.len() >= 1
    &&& (forall|i: int| 0 <= i < log.len() ==> commit_wf(#[trigger] log[i]))
    &&& log[0].operation is Create
    &&& log[0].parent == Seq::<char>::empty()
    &&& (forall|i: int| 1 <= i < log.len() ==> id_in_log(log.take(i), (#[trigger] log[i]).parent))
}

/// A well-formed, well-chained history stays so when a commit chained to a
/// present identity is appended, and the new commit's identity is present
/// afterwards.
proof fn lemma_log_wf_push(log: Seq<CommitView>, c: CommitView)
    requires
        log_wf(log),
        commit_wf(c),
        id_in_log(log, c.parent),
    ensures
        log_wf(log.push(c)),
        id_in_log(log.push(c), c.id),
{
    let l2 = log.push(c);
    assert(l2[0] == log[0]);
    assert forall|i: int| 0 <= i < l2.len() implies commit_wf(#[trigger] l2[i]) by {
        if i < log.len() {
            assert(l2[i] == log[i]);
        } else {
            assert(l2[i] == c);
        }
    }
    assert forall|i: int| 1 <= i < l2.len() implies id_in_log(
        l2.take(i),
        (#[trigger] l2[i]).parent,
    ) by {
        if i < log.len() {
            assert(l2.take(i) =~= log.take(i));
            assert(l2[i] == log[i]);
        } else {
            assert(i == log.len());
            assert(l2.take(i) =~= log);
            assert(l2[i] == c);
        }
    }
    assert(l2[log.len() as int] == c);
    assert(id_in_log(l2, c.id));
}

impl OpLog {
    /// An empty history: no commits at all, not even a root.
    pub fn new() -> (r: Self)
        ensures
            r@ == Seq::<CommitView>::empty(),
    {
        let r = OpLog { commits: Vec::new() };
        proof {
            assert(r@ =~= Seq::<CommitView>::empty());
        }
        r
    }

    /// Seeds the history with a root commit carrying `nonce`. Must be called
    /// exactly once, before any append; the log offers no protection against
    /// a second root.
    pub fn init_with_nonce(&mut self, nonce: String)
        ensures
            final(self)@ == old(self)@.push(root_commit_with(nonce@)),
            commit_wf(root_commit_with(nonce@)),
    {
        let creation_commit = Commit::init_with_nonce(nonce);
        proof {
            assert(old(self)@.push(creation_commit@) =~= old(self).commits@.push(
                creation_commit,
            ).map_values(|c: Commit| c@));
        }
        self.commits.push(creation_commit);
    }

    /// Seeds the history with the default root commit (fixed placeholder
    /// nonce). Must be called exactly once, before any append; the log
    /// offers no protection against a second root.
    pub fn init(&mut self)
        ensures
            final(self)@ == old(self)@.push(root_commit()),
            commit_wf(root_commit()),
    {
        self.init_with_nonce(String::from_str("Hello World"));
    }

    /// Builds the commit recording `operation` chained from `parent`,
    /// appends it, and returns a copy. The caller answers for `parent`
    /// naming a commit actually present.
    pub fn append(&mut self, parent: &Sha, operation: Operation) -> (r: Commit)
        ensures
            r@ == make_commit(operation@, parent@),
            commit_wf(r@),
            final(self)@ == old(self)@.push(r@),
    {
        let op_hash = operation.hash();
        let parent_c = parent.clone();
        let id = id_from_op_and_parent(&operation, &parent_c);
        let new_commit = Commit { id, operation, content_hash: op_hash, parent: parent_c };
        let copy = new_commit.clone();
        proof {
            assert(old(self)@.push(new_commit@) =~= old(self).commits@.push(new_commit).map_values(
                |c: Commit| c@,
            ));
        }
        self.commits.push(new_commit);
        copy
    }

    /// A copy of the most recently appended commit, if any.
    pub fn last(&self) -> (r: Option<Commit>)
        ensures
            r is Some <==> self@.len() > 0,
            r matches Some(c) ==> c@ == self@.last(),
    {
        let n = self.commits.len();
        if n == 0 {
            None
        } else {
            Some(self.commits[n - 1].clone())
        }
    }

    /// How many commits the history holds.
    pub fn get_length(&self) -> (r: usize)
        ensures
            r == self@.len(),
    {
        self.commits.len()
    }

    /// A copy of the commit at `index` (oldest first), if the history is
    /// that long.
    pub fn nth(&self, index: usize) -> (r: Option<Commit>)
        ensures
            r is Some <==> index < self@.len(),
            r matches Some(c) ==> c@ == self@[index as int],
    {
        if index < self.commits.len() {
            Some(self.commits[index].clone())
        } else {
            None
        }
    }

    /// Rebuilds a history from commits already in hand, in the given order;
    /// for callers that persist and restore logs. Nothing is re-derived or
    /// checked here.
    pub fn from_commits(commits: Vec<Commit>) -> (r: Self)
        ensures
            r@ == commits@.map_values(|c: Commit| c@),
    {
        OpLog { commits }
    }
}

/// Every commit identity is long enough for the ten-character prefix the
/// diagnostic rendering shows. Any well-formed history satisfies this, since
/// well-formed identities are 64 characters long.
pub open spec fn ids_printable(log: Seq<CommitView>) -> bool {
    forall|i: int| 0 <= i < log.len() ==> (#[trigger] log[i]).id.len() >= 10
}

/// The message checkout and cherry-pick fail with: it names the fingerprint
/// that no commit carries.
pub open spec fn not_found_msg(sha: Seq<char>) -> Seq<char> {
    "SHA "@ + sha + " not found in oplog"@
}

fn not_found_message(sha: &Sha) -> (r: String)
    ensures
        r@ == not_found_msg(sha@),
{
    let mut s = String::from_str("SHA ");
    s.append(sha.as_str());
    s.append(" not found in oplog");
    s
}

/// The unit a caller interacts with: the ground-truth history plus the
/// cursor, the identity of the commit currently considered current.
#[derive(Debug, Clone, PartialEq)]
pub struct EvolutionLog {
    pub cursor: Sha,
    pub oplog: OpLog,
}

impl EvolutionLog {
    /// The authoritative invariant: the history has well-formed chain shape
    /// and the cursor names a commit present in it. It holds after
    /// construction and is preserved by every operation, including failed
    /// ones.
    pub open spec fn wf(&self) -> bool {
        &&& log_wf(self.oplog@)
        &&& id_in_log(self.oplog@, self.cursor@)
    }

    /// A fresh log whose root commit carries `nonce`: give every session its
    /// own nonce where fresh logs must not share a root identity.
    pub fn new_with_nonce(nonce: String) -> (r: Self)
        ensures
            r.oplog@ == seq![root_commit_with(nonce@)],
            r.cursor@ == root_commit_with(nonce@).id,
            r.wf(),
    {
        let mut ol = OpLog::new();
        ol.init_with_nonce(nonce);
        let root = ol.last().unwrap();
        let r = EvolutionLog { cursor: root.id, oplog: ol };
        proof {
            assert(r.oplog@ =~= seq![root_commit_with(nonce@)]);
            assert(r.oplog@[0].id == r.cursor@);
        }
        r
    }

    /// A fresh log: exactly the default root commit, with the cursor on it.
    pub fn new() -> (r: Self)
        ensures
            r.oplog@ == seq![root_commit()],
            r.cursor@ == root_commit().id,
            r.wf(),
    {
        Self::new_with_nonce(String::from_str("Hello World"))
    }

    /// Records `operation` chained from the current cursor, advances the
    /// cursor to the new commit's identity, and returns that identity.
    /// Always succeeds; the history grows by exactly one commit.
    pub fn append(&mut self, operation: Operation) -> (r: Sha)
        ensures
            final(self).oplog@ == old(self).oplog@.push(
                make_commit(operation@, old(self).cursor@),
            ),
            final(self).cursor@ == spec_commit_id(operation@, old(self).cursor@),
            r@ == final(self).cursor@,
            old(self).wf() ==> final(self).wf(),
    {
        let ghost pre = *old(self);
        let c = self.oplog.append(&self.cursor, operation);
        self.cursor = c.id;
        proof {
            if pre.wf() {
                lemma_log_wf_push(pre.oplog@, c@);
            }
        }
        self.cursor.clone()
    }

    /// Moves the cursor to the commit whose identity is `sha`, if one is
    /// present; pure navigation, the history itself never changes. When no
    /// commit carries `sha`, fails with a message naming it and leaves the
    /// cursor where it was.
    pub fn checkout(&mut self, sha: Sha) -> (r: Result<(), String>)
        ensures
            final(self).oplog@ == old(self).oplog@,
            r is Ok <==> id_in_log(old(self).oplog@, sha@),
            r is Ok ==> final(self).cursor@ == sha@,
            r is Err ==> final(self).cursor@ == old(self).cursor@,
            r matches Err(m) ==> m@ == not_found_msg(sha@),
            old(self).wf() ==> final(self).wf(),
    {
        let n = self.oplog.get_length();
        let mut i: usize = 0;
        while i < n
            invariant
                0 <= i <= n,
                n == self.oplog@.len(),
                *self == *old(self),
                forall|j: int| 0 <= j < i ==> (#[trigger] self.oplog@[j]).id != sha@,
            decreases n - i,
        {
            if self.oplog.commits[i].id == sha {
                proof {
                    assert(self.oplog@[i as int] == self.oplog.commits@[i as int]@);
                    assert(id_in_log(self.oplog@, sha@));
                }
                self.cursor = sha;
                return Ok(());
            }
            i += 1;
        }
        Err(not_found_message(&sha))
    }

    /// Replays the operation of the commit first found carrying `sha` as a
    /// brand-new commit chained from the current cursor: a fresh identity
    /// and a fresh parent, not a pointer to the old commit. When no commit
    /// carries `sha`, fails with a message naming it and changes nothing.
    pub fn cherry_pick(&mut self, sha: Sha) -> (r: Result<(), String>)
        ensures
            r is Ok <==> id_in_log(old(self).oplog@, sha@),
            r is Ok ==> ({
                let c = make_commit(
                    old(self).oplog@[first_match(old(self).oplog@, sha@)].operation,
                    old(self).cursor@,
                );
                &&& final(self).oplog@ == old(self).oplog@.push(c)
                &&& final(self).cursor@ == c.id
            }),
            r is Err ==> final(self).oplog@ == old(self).oplog@ && final(self).cursor@ == old(
                self,
            ).cursor@,
            r matches Err(m) ==> m@ == not_found_msg(sha@),
            old(self).wf() ==> final(self).wf(),
    {
        let n = self.oplog.get_length();
        let mut i: usize = 0;
        while i < n
            invariant
                0 <= i <= n,
                n == self.oplog@.len(),
                *self == *old(self),
                forall|j: int| 0 <= j < i ==> (#[trigger] self.oplog@[j]).id != sha@,
            decreases n - i,
        {
            if self.oplog.commits[i].id == sha {
                let op = self.oplog.commits[i].operation.clone();
                proof {
                    assert(self.oplog@[i as int] == self.oplog.commits@[i as int]@);
                    assert(id_in_log(self.oplog@, sha@));
                    lemma_first_match(self.oplog@, sha@);
                }
                self.append(op);
                return Ok(());
            }
            i += 1;
        }
        Err(not_found_message(&sha))
    }

    /// Renders the whole history, one commit line per entry in append order,
    /// each line newline-terminated.
    pub fn pretty_print(&self) -> (r: String)
        requires
            ids_printable(self.oplog@),
        ensures
            r@ == log_pretty(self.oplog@),
    {
        let n = self.oplog.get_length();
        let mut out = String::new();
        let mut i: usize = 0;
        while i < n
            invariant
                0 <= i <= n,
                n == self.oplog@.len(),
                ids_printable(self.oplog@),
                out@ == log_pretty(self.oplog@.take(i as int)),
            decreases n - i,
        {
            proof {
                assert(self.oplog@[i as int] == self.oplog.commits@[i as int]@);
            }
            let line = self.oplog.commits[i].pretty_print();
            out.append(line.as_str());
            out.append("\n");
            proof {
                let post = self.oplog@.take(i + 1 as int);
                assert(post.drop_last() =~= self.oplog@.take(i as int));
                assert(post.last() == self.oplog@[i as int]);
            }
            i += 1;
        }
        proof {
            assert(self.oplog@.take(n as int) =~= self.oplog@);
        }
        out
    }
}

/// The rendering of a whole history: each commit's one-line summary in
/// append order, each followed by a newline.
pub open spec fn log_pretty(log: Seq<CommitView>) -> Seq<char>
    decreases log.len(),
{
    if log.len() == 0 {
        Seq::empty()
    } else {
        log_pretty(log.drop_last()) + commit_pretty(log.last()) + "\n"@
    }
}

} // verus!
