use vstd::prelude::*;

verus! {

/// The message of a commit: given text, or the message of a merge commit.
pub enum CommitMessage {
    Text(String),
    Merge { remote: String, local: String },
}

/// The parents of a commit: the current head, or both sides of a merge.
pub enum Parents {
    Single(String),
    Pair(String, String),
}

/// What a commit is made of, besides its author and committer, which are the
/// repository's configured signature.
pub struct CommitFields {
    pub message: CommitMessage,
    pub tree: String,
    pub parents: Parents,
}

/// A primitive of the repository, of the signing agent or of the working tree
/// that the workflow asks the caller to perform.
pub enum GitAction {
    /// Fetch the remote's `branch`; answered by `Fetched`.
    Fetch { branch: String },
    /// Analyse the merge of `fetched` into the current head and look up
    /// `branch`; answered by `Analyzed`.
    Analyze { branch: String, fetched: String },
    /// Point the existing `branch` at `target`, make it HEAD and check it out
    /// by force; answered by `Completed`.
    FastForward { branch: String, target: String },
    /// Create `branch` at `target`, make it HEAD and check it out; answered
    /// by `Completed`.
    CreateBranch { branch: String, target: String },
    /// Merge the trees of `local` and `remote` over their merge base;
    /// answered by `MergeComputed`.
    MergeTrees { local: String, remote: String },
    /// Write the conflicted merge into the working tree; answered by
    /// `Completed`.
    CheckoutConflicts,
    /// Write the merged index as a tree; answered by `TreeWritten`.
    WriteMergedTree,
    /// Look up `user.signingkey`; answered by `KeyLookedUp`.
    ReadSigningKey,
    /// Write the repository's index as a tree; answered by `TreeWritten`.
    WriteIndexTree,
    /// Find the commit at HEAD; answered by `ParentFound`.
    FindParent,
    /// Create an unsigned commit and point HEAD at it; answered by
    /// `CommitWritten`.
    CreateCommit { fields: CommitFields },
    /// Serialise the commit that `fields` describe, without writing it;
    /// answered by `BufferCreated`.
    CreateBuffer { fields: CommitFields },
    /// Make a detached, armored OpenPGP signature of `buffer` with `key`;
    /// answered by `Signed`, `KeyNotFound` or `SignatureNotText`.
    Sign { key: String, buffer: String },
    /// Write the commit `buffer` with `signature` attached; answered by
    /// `CommitWritten`.
    WriteSignedCommit { buffer: String, signature: String },
    /// Point HEAD at `commit`; answered by `Completed`.
    SetHeadTarget { commit: String },
    /// Check out HEAD; answered by `Completed`.
    CheckoutHead,
    /// Nothing more to do: the state holds the outcome.
    Finish,
}

/// What performing an action gave. Any action may be answered by `Failed`.
pub enum Event {
    Fetched { fetched: String },
    Analyzed { fast_forward: bool, normal: bool, branch_exists: bool, head: String },
    MergeComputed { conflicts: bool },
    TreeWritten { tree: String },
    ParentFound { parent: String },
    /// `None` where no signing key is configured.
    KeyLookedUp { key: Option<String> },
    BufferCreated { buffer: String },
    Signed { signature: String },
    KeyNotFound,
    SignatureNotText,
    CommitWritten { commit: String },
    Completed,
    Failed,
}

/// The text of a merge commit's message.
pub open spec fn merge_message(remote: Seq<char>, local: Seq<char>) -> Seq<char> {
    "Merge: "@ + remote + " into "@ + local
}

pub open spec fn message_text(m: CommitMessage) -> Seq<char> {
    match m {
        CommitMessage::Text(s) => s@,
        CommitMessage::Merge { remote, local } => merge_message(remote@, local@),
    }
}

impl CommitMessage {
    /// The message as written into the commit.
    pub fn text(&self) -> (r: String)
        ensures
            r@ == message_text(*self),
    {
        match self {
            CommitMessage::Text(s) => s.clone(),
            CommitMessage::Merge { remote, local } => {
                let m = String::from_str("Merge: ");
                let m = m.concat(remote.as_str());
                let m = m.concat(" into ");
                m.concat(local.as_str())
            },
        }
    }
}

/// The actions that create a commit object.
pub open spec fn creates_commit(a: GitAction) -> bool {
    a is CreateCommit || a is WriteSignedCommit
}

/// The actions that create a commit, move HEAD or a branch, or rewrite the
/// working tree from HEAD.
pub open spec fn changes_history(a: GitAction) -> bool {
    a is CreateCommit || a is WriteSignedCommit || a is SetHeadTarget || a is FastForward
        || a is CreateBranch || a is CheckoutHead
}

} // verus!
