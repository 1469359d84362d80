use vstd::prelude::*;

use crate::commit::{commit_next, CommitState, PendingCommit};
use crate::error::{DotfoxError, VcStep};
use crate::steps::{
    changes_history, creates_commit, CommitFields, CommitMessage, Event, GitAction, Parents,
};

verus! {

/// How a pull ended.
pub enum PullOutcome {
    /// The existing branch was moved forward to `target`.
    FastForwarded { target: String },
    /// The branch did not exist and was created at `target`.
    BranchCreated { target: String },
    /// A merge commit `commit` was made and checked out.
    Merged { commit: String },
    /// The merge conflicts; they are in the working tree, and nothing was
    /// committed.
    Conflicted,
    /// There was nothing to merge.
    UpToDate,
}

/// The state of one pull.
pub enum PullState {
    Fetching { branch: String },
    Analyzing { branch: String, fetched: String },
    FastForwarding { target: String },
    CreatingBranch { target: String },
    Merging { local: String, remote: String },
    MarkingConflicts,
    WritingMergedTree { local: String, remote: String },
    Committing { signer: CommitState },
    CheckingOut { commit: String },
    Done { outcome: PullOutcome },
    Failed { error: DotfoxError },
}

pub open spec fn pull_failed(error: DotfoxError) -> (PullState, GitAction) {
    (PullState::Failed { error }, GitAction::Finish)
}

pub open spec fn pull_unexpected() -> (PullState, GitAction) {
    pull_failed(DotfoxError::VersionControl(VcStep::UnexpectedEvent))
}

pub open spec fn pull_done(outcome: PullOutcome) -> (PullState, GitAction) {
    (PullState::Done { outcome }, GitAction::Finish)
}

/// The merge commit of `local` and `remote` with the merged `tree`.
pub open spec fn merge_fields(local: String, remote: String, tree: String) -> CommitFields {
    CommitFields {
        message: CommitMessage::Merge { remote, local },
        tree,
        parents: Parents::Pair(local, remote),
    }
}

/// The choice made from the merge analysis: fast-forward first, then a
/// normal merge, else nothing to do.
pub open spec fn analyzed_next(
    branch: String,
    fetched: String,
    fast_forward: bool,
    normal: bool,
    branch_exists: bool,
    head: String,
) -> (PullState, GitAction) {
    if fast_forward {
        if branch_exists {
            (
                PullState::FastForwarding { target: fetched },
                GitAction::FastForward { branch, target: fetched },
            )
        } else {
            (
                PullState::CreatingBranch { target: fetched },
                GitAction::CreateBranch { branch, target: fetched },
            )
        }
    } else if normal {
        (
            PullState::Merging { local: head, remote: fetched },
            GitAction::MergeTrees { local: head, remote: fetched },
        )
    } else {
        pull_done(PullOutcome::UpToDate)
    }
}

/// A step of the commit inside a merge: once committed, HEAD is checked out.
pub open spec fn committing_next(c: CommitState, e: Event) -> (PullState, GitAction) {
    let (c2, a) = commit_next(c, e);
    match c2 {
        CommitState::Committed { commit } => (
            PullState::CheckingOut { commit },
            GitAction::CheckoutHead,
        ),
        CommitState::Failed { error } => pull_failed(error),
        _ => (PullState::Committing { signer: c2 }, a),
    }
}

/// The transition of a pull on an event.
pub open spec fn pull_next(s: PullState, e: Event) -> (PullState, GitAction) {
    match s {
        PullState::Fetching { branch } => match e {
            Event::Fetched { fetched } => (
                PullState::Analyzing { branch, fetched },
                GitAction::Analyze { branch, fetched },
            ),
            Event::Failed => pull_failed(DotfoxError::VersionControl(VcStep::Fetch)),
            _ => pull_unexpected(),
        },
        PullState::Analyzing { branch, fetched } => match e {
            Event::Analyzed { fast_forward, normal, branch_exists, head } => analyzed_next(
                branch,
                fetched,
                fast_forward,
                normal,
                branch_exists,
                head,
            ),
            Event::Failed => pull_failed(DotfoxError::VersionControl(VcStep::Analyze)),
            _ => pull_unexpected(),
        },
        PullState::FastForwarding { target } => match e {
            Event::Completed => pull_done(PullOutcome::FastForwarded { target }),
            Event::Failed => pull_failed(DotfoxError::VersionControl(VcStep::FastForward)),
            _ => pull_unexpected(),
        },
        PullState::CreatingBranch { target } => match e {
            Event::Completed => pull_done(PullOutcome::BranchCreated { target }),
            Event::Failed => pull_failed(DotfoxError::VersionControl(VcStep::CreateBranch)),
            _ => pull_unexpected(),
        },
        PullState::Merging { local, remote } => match e {
            Event::MergeComputed { conflicts } => if conflicts {
                (PullState::MarkingConflicts, GitAction::CheckoutConflicts)
            } else {
                (PullState::WritingMergedTree { local, remote }, GitAction::WriteMergedTree)
            },
            Event::Failed => pull_failed(DotfoxError::VersionControl(VcStep::Merge)),
            _ => pull_unexpected(),
        },
        PullState::MarkingConflicts => match e {
            Event::Completed => pull_done(PullOutcome::Conflicted),
            Event::Failed => pull_failed(DotfoxError::VersionControl(VcStep::CheckoutConflicts)),
            _ => pull_unexpected(),
        },
        PullState::WritingMergedTree { local, remote } => match e {
            Event::TreeWritten { tree } => (
                PullState::Committing {
                    signer: CommitState::ReadingKey {
                        pending: PendingCommit::Prepared {
                            fields: merge_fields(local, remote, tree),
                        },
                    },
                },
                GitAction::ReadSigningKey,
            ),
            Event::Failed => pull_failed(DotfoxError::VersionControl(VcStep::WriteMergedTree)),
            _ => pull_unexpected(),
        },
        PullState::Committing { signer } => committing_next(signer, e),
        PullState::CheckingOut { commit } => match e {
            Event::Completed => pull_done(PullOutcome::Merged { commit }),
            Event::Failed => pull_failed(DotfoxError::VersionControl(VcStep::Checkout)),
            _ => pull_unexpected(),
        },
        PullState::Done { outcome } => (PullState::Done { outcome }, GitAction::Finish),
        PullState::Failed { error } => (PullState::Failed { error }, GitAction::Finish),
    }
}

/// The states and actions a pull goes through on a sequence of events.
pub open spec fn pull_run(s: PullState, events: Seq<Event>) -> (PullState, Seq<GitAction>)
    decreases events.len(),
{
    if events.len() == 0 {
        (s, seq![])
    } else {
        let (s1, a) = pull_next(s, events[0]);
        let (last, rest) = pull_run(s1, events.drop_first());
        (last, seq![a] + rest)
    }
}

fn fail(error: DotfoxError) -> (r: (PullState, GitAction))
    ensures
        r == pull_failed(error),
{
    (PullState::Failed { error }, GitAction::Finish)
}

fn unexpected() -> (r: (PullState, GitAction))
    ensures
        r == pull_unexpected(),
{
    fail(DotfoxError::VersionControl(VcStep::UnexpectedEvent))
}

fn done(outcome: PullOutcome) -> (r: (PullState, GitAction))
    ensures
        r == pull_done(outcome),
{
    (PullState::Done { outcome }, GitAction::Finish)
}

/// Starts a pull of `branch`: the first action fetches it.
pub fn begin_pull(branch: String) -> (r: (PullState, GitAction))
    ensures
        r == (PullState::Fetching { branch }, GitAction::Fetch { branch }),
{
    let fetched_branch = branch.clone();
    (PullState::Fetching { branch }, GitAction::Fetch { branch: fetched_branch })
}

/// The branch to pull: the full name of HEAD's reference, which must be a
/// branch.
pub fn get_current_branch(head_is_branch: bool, head_name: Option<String>) -> (r: Result<
    String,
    DotfoxError,
>)
    ensures
        head_is_branch && head_name is Some ==> r == Ok::<String, DotfoxError>(head_name->0),
        !(head_is_branch && head_name is Some) ==> r == Err::<String, DotfoxError>(
            DotfoxError::VersionControl(VcStep::Branch),
        ),
{
    if !head_is_branch {
        return Err(DotfoxError::VersionControl(VcStep::Branch));
    }
    match head_name {
        Some(name) => Ok(name),
        None => Err(DotfoxError::VersionControl(VcStep::Branch)),
    }
}

impl PullState {
    /// The next state and the action to perform, given what the last action
    /// gave.
    pub fn step(self, event: Event) -> (r: (PullState, GitAction))
        ensures
            r == pull_next(self, event),
    {
        match self {
            PullState::Fetching { branch } => match event {
                Event::Fetched { fetched } => {
                    let b = branch.clone();
                    let f = fetched.clone();
                    (PullState::Analyzing { branch, fetched }, GitAction::Analyze { branch: b, fetched: f })
                },
                Event::Failed => fail(DotfoxError::VersionControl(VcStep::Fetch)),
                _ => unexpected(),
            },
            PullState::Analyzing { branch, fetched } => match event {
                Event::Analyzed { fast_forward, normal, branch_exists, head } => {
                    if fast_forward {
                        let target = fetched.clone();
                        if branch_exists {
                            (
                                PullState::FastForwarding { target },
                                GitAction::FastForward { branch, target: fetched },
                            )
                        } else {
                            (
                                PullState::CreatingBranch { target },
                                GitAction::CreateBranch { branch, target: fetched },
                            )
                        }
                    } else if normal {
                        let local = head.clone();
                        let remote = fetched.clone();
                        (
                            PullState::Merging { local: head, remote: fetched },
                            GitAction::MergeTrees { local, remote },
                        )
                    } else {
                        done(PullOutcome::UpToDate)
                    }
                },
                Event::Failed => fail(DotfoxError::VersionControl(VcStep::Analyze)),
                _ => unexpected(),
            },
            PullState::FastForwarding { target } => match event {
                Event::Completed => done(PullOutcome::FastForwarded { target }),
                Event::Failed => fail(DotfoxError::VersionControl(VcStep::FastForward)),
                _ => unexpected(),
            },
            PullState::CreatingBranch { target } => match event {
                Event::Completed => done(PullOutcome::BranchCreated { target }),
                Event::Failed => fail(DotfoxError::VersionControl(VcStep::CreateBranch)),
                _ => unexpected(),
            },
            PullState::Merging { local, remote } => match event {
                Event::MergeComputed { conflicts } => {
                    if conflicts {
                        (PullState::MarkingConflicts, GitAction::CheckoutConflicts)
                    } else {
                        (PullState::WritingMergedTree { local, remote }, GitAction::WriteMergedTree)
                    }
                },
                Event::Failed => fail(DotfoxError::VersionControl(VcStep::Merge)),
                _ => unexpected(),
            },
            PullState::MarkingConflicts => match event {
                Event::Completed => done(PullOutcome::Conflicted),
                Event::Failed => fail(DotfoxError::VersionControl(VcStep::CheckoutConflicts)),
                _ => unexpected(),
            },
            PullState::WritingMergedTree { local, remote } => match event {
                Event::TreeWritten { tree } => {
                    let fields = CommitFields {
                        message: CommitMessage::Merge { remote: remote.clone(), local: local.clone() },
                        tree,
                        parents: Parents::Pair(local, remote),
                    };
                    (
                        PullState::Committing {
                            signer: CommitState::ReadingKey {
                                pending: PendingCommit::Prepared { fields },
                            },
                        },
                        GitAction::ReadSigningKey,
                    )
                },
                Event::Failed => fail(DotfoxError::VersionControl(VcStep::WriteMergedTree)),
                _ => unexpected(),
            },
            PullState::Committing { signer } => {
                let (next, action) = signer.step(event);
                match next {
                    CommitState::Committed { commit } => (
                        PullState::CheckingOut { commit },
                        GitAction::CheckoutHead,
                    ),
                    CommitState::Failed { error } => fail(error),
                    other => (PullState::Committing { signer: other }, action),
                }
            },
            PullState::CheckingOut { commit } => match event {
                Event::Completed => done(PullOutcome::Merged { commit }),
                Event::Failed => fail(DotfoxError::VersionControl(VcStep::Checkout)),
                _ => unexpected(),
            },
            PullState::Done { outcome } => (PullState::Done { outcome }, GitAction::Finish),
            PullState::Failed { error } => (PullState::Failed { error }, GitAction::Finish),
        }
    }
}

proof fn lemma_pull_run_cons(s: PullState, e: Event, rest: Seq<Event>)
    ensures
        pull_run(s, seq![e] + rest) == (
            pull_run(pull_next(s, e).0, rest).0,
            seq![pull_next(s, e).1] + pull_run(pull_next(s, e).0, rest).1,
        ),
{
    assert((seq![e] + rest).drop_first() =~= rest);
    assert((seq![e] + rest)[0] == e);
}

/// A finished pull stays as it is and asks for nothing more.
pub proof fn lemma_finished_pull_stays(s: PullState, events: Seq<Event>)
    requires
        s is Done || s is Failed,
    ensures
        pull_run(s, events).0 == s,
        forall|i: int|
            0 <= i < pull_run(s, events).1.len() ==> pull_run(s, events).1[i] == GitAction::Finish,
        pull_run(s, events).1.len() == events.len(),
    decreases events.len(),
{
    if events.len() > 0 {
        lemma_finished_pull_stays(s, events.drop_first());
        let rest = pull_run(s, events.drop_first()).1;
        assert forall|i: int| 0 <= i < rest.len() + 1 implies (seq![GitAction::Finish] + rest)[i]
            == GitAction::Finish by {
            if i > 0 {
                assert((seq![GitAction::Finish] + rest)[i] == rest[i - 1]);
            }
        }
    }
}

/// Fast-forward: where the fetched commit is ahead of the local branch, the
/// branch is moved to the fetched id, and no commit is created then or after.
pub proof fn lemma_fast_forward_moves_branch(
    branch: String,
    fetched: String,
    normal: bool,
    head: String,
    more: Seq<Event>,
)
    ensures
        ({
            let run = pull_run(
                PullState::Fetching { branch },
                seq![
                    Event::Fetched { fetched },
                    Event::Analyzed { fast_forward: true, normal, branch_exists: true, head },
                    Event::Completed,
                ] + more,
            );
            &&& run.0 == PullState::Done {
                outcome: PullOutcome::FastForwarded { target: fetched },
            }
            &&& run.1.len() == 3 + more.len()
            &&& run.1[1] == GitAction::FastForward { branch, target: fetched }
            &&& forall|i: int| 0 <= i < run.1.len() ==> !creates_commit(#[trigger] run.1[i])
        }),
{
    let s0 = PullState::Fetching { branch };
    let e1 = Event::Fetched { fetched };
    let e2 = Event::Analyzed { fast_forward: true, normal, branch_exists: true, head };
    let e3 = Event::Completed;
    let s1 = pull_next(s0, e1).0;
    let s2 = pull_next(s1, e2).0;
    let s3 = pull_next(s2, e3).0;
    lemma_finished_pull_stays(s3, more);
    lemma_pull_run_cons(s2, e3, more);
    lemma_pull_run_cons(s1, e2, seq![e3] + more);
    assert(seq![e2] + (seq![e3] + more) =~= seq![e2, e3] + more);
    lemma_pull_run_cons(s0, e1, seq![e2, e3] + more);
    assert(seq![e1] + (seq![e2, e3] + more) =~= seq![e1, e2, e3] + more);
    let tail = pull_run(s3, more).1;
    let acts = pull_run(s0, seq![e1, e2, e3] + more).1;
    let a1 = GitAction::Analyze { branch, fetched };
    let a2 = GitAction::FastForward { branch, target: fetched };
    assert(acts =~= seq![a1] + (seq![a2] + (seq![GitAction::Finish] + tail)));
    assert forall|i: int| 0 <= i < acts.len() implies !creates_commit(#[trigger] acts[i]) by {
        if i >= 3 {
            assert(acts[i] == tail[i - 3]);
        }
    }
}

/// A merge without conflicts: a commit of the merged tree is created with
/// two parents, the local head first and the fetched commit second; HEAD is
/// moved to it and checked out.
pub proof fn lemma_clean_merge_commits_both_parents(
    branch: String,
    fetched: String,
    branch_exists: bool,
    head: String,
    tree: String,
    commit: String,
)
    ensures
        ({
            let run = pull_run(
                PullState::Fetching { branch },
                seq![
                    Event::Fetched { fetched },
                    Event::Analyzed { fast_forward: false, normal: true, branch_exists, head },
                    Event::MergeComputed { conflicts: false },
                    Event::TreeWritten { tree },
                    Event::KeyLookedUp { key: None },
                    Event::CommitWritten { commit },
                    Event::Completed,
                ],
            );
            &&& run.0 == PullState::Done { outcome: PullOutcome::Merged { commit } }
            &&& run.1 == seq![
                GitAction::Analyze { branch, fetched },
                GitAction::MergeTrees { local: head, remote: fetched },
                GitAction::WriteMergedTree,
                GitAction::ReadSigningKey,
                GitAction::CreateCommit {
                    fields: CommitFields {
                        message: CommitMessage::Merge { remote: fetched, local: head },
                        tree,
                        parents: Parents::Pair(head, fetched),
                    },
                },
                GitAction::CheckoutHead,
                GitAction::Finish,
            ]
        }),
{
    let s0 = PullState::Fetching { branch };
    let e1 = Event::Fetched { fetched };
    let e2 = Event::Analyzed { fast_forward: false, normal: true, branch_exists, head };
    let e3 = Event::MergeComputed { conflicts: false };
    let e4 = Event::TreeWritten { tree };
    let e5 = Event::KeyLookedUp { key: None };
    let e6 = Event::CommitWritten { commit };
    let e7 = Event::Completed;
    let s1 = pull_next(s0, e1).0;
    let s2 = pull_next(s1, e2).0;
    let s3 = pull_next(s2, e3).0;
    let s4 = pull_next(s3, e4).0;
    let s5 = pull_next(s4, e5).0;
    let s6 = pull_next(s5, e6).0;
    let none = Seq::<Event>::empty();
    lemma_pull_run_cons(s6, e7, none);
    lemma_pull_run_cons(s5, e6, seq![e7]);
    assert(seq![e6] + seq![e7] =~= seq![e6, e7]);
    lemma_pull_run_cons(s4, e5, seq![e6, e7]);
    assert(seq![e5] + seq![e6, e7] =~= seq![e5, e6, e7]);
    lemma_pull_run_cons(s3, e4, seq![e5, e6, e7]);
    assert(seq![e4] + seq![e5, e6, e7] =~= seq![e4, e5, e6, e7]);
    lemma_pull_run_cons(s2, e3, seq![e4, e5, e6, e7]);
    assert(seq![e3] + seq![e4, e5, e6, e7] =~= seq![e3, e4, e5, e6, e7]);
    lemma_pull_run_cons(s1, e2, seq![e3, e4, e5, e6, e7]);
    assert(seq![e2] + seq![e3, e4, e5, e6, e7] =~= seq![e2, e3, e4, e5, e6, e7]);
    lemma_pull_run_cons(s0, e1, seq![e2, e3, e4, e5, e6, e7]);
    assert(seq![e1] + seq![e2, e3, e4, e5, e6, e7] =~= seq![e1, e2, e3, e4, e5, e6, e7]);
    let run = pull_run(s0, seq![e1, e2, e3, e4, e5, e6, e7]);
    assert(run.1 =~= seq![
        GitAction::Analyze { branch, fetched },
        GitAction::MergeTrees { local: head, remote: fetched },
        GitAction::WriteMergedTree,
        GitAction::ReadSigningKey,
        GitAction::CreateCommit {
            fields: CommitFields {
                message: CommitMessage::Merge { remote: fetched, local: head },
                tree,
                parents: Parents::Pair(head, fetched),
            },
        },
        GitAction::CheckoutHead,
        GitAction::Finish,
    ]);
}

/// A merge without conflicts, where a signing key is configured: the commit
/// with the two parents is serialised, that buffer is signed and written with
/// its signature, and HEAD is moved to the new commit and checked out.
pub proof fn lemma_clean_signed_merge_commits_both_parents(
    branch: String,
    fetched: String,
    branch_exists: bool,
    head: String,
    tree: String,
    key: String,
    buffer: String,
    signature: String,
    commit: String,
)
    ensures
        ({
            let run = pull_run(
                PullState::Fetching { branch },
                seq![
                    Event::Fetched { fetched },
                    Event::Analyzed { fast_forward: false, normal: true, branch_exists, head },
                    Event::MergeComputed { conflicts: false },
                    Event::TreeWritten { tree },
                    Event::KeyLookedUp { key: Some(key) },
                    Event::BufferCreated { buffer },
                    Event::Signed { signature },
                    Event::CommitWritten { commit },
                    Event::Completed,
                    Event::Completed,
                ],
            );
            &&& run.0 == PullState::Done { outcome: PullOutcome::Merged { commit } }
            &&& run.1 == seq![
                GitAction::Analyze { branch, fetched },
                GitAction::MergeTrees { local: head, remote: fetched },
                GitAction::WriteMergedTree,
                GitAction::ReadSigningKey,
                GitAction::CreateBuffer {
                    fields: CommitFields {
                        message: CommitMessage::Merge { remote: fetched, local: head },
                        tree,
                        parents: Parents::Pair(head, fetched),
                    },
                },
                GitAction::Sign { key, buffer },
                GitAction::WriteSignedCommit { buffer, signature },
                GitAction::SetHeadTarget { commit },
                GitAction::CheckoutHead,
                GitAction::Finish,
            ]
        }),
{
    let s0 = PullState::Fetching { branch };
    let e = seq![
        Event::Fetched { fetched },
        Event::Analyzed { fast_forward: false, normal: true, branch_exists, head },
        Event::MergeComputed { conflicts: false },
        Event::TreeWritten { tree },
        Event::KeyLookedUp { key: Some(key) },
        Event::BufferCreated { buffer },
        Event::Signed { signature },
        Event::CommitWritten { commit },
        Event::Completed,
        Event::Completed,
    ];
    let s1 = pull_next(s0, e[0]).0;
    let s2 = pull_next(s1, e[1]).0;
    let s3 = pull_next(s2, e[2]).0;
    let s4 = pull_next(s3, e[3]).0;
    let s5 = pull_next(s4, e[4]).0;
    let s6 = pull_next(s5, e[5]).0;
    let s7 = pull_next(s6, e[6]).0;
    let s8 = pull_next(s7, e[7]).0;
    let s9 = pull_next(s8, e[8]).0;
    lemma_pull_run_cons(s9, e[9], e.subrange(10, 10));
    assert(seq![e[9]] + e.subrange(10, 10) =~= e.subrange(9, 10));
    lemma_pull_run_cons(s8, e[8], e.subrange(9, 10));
    assert(seq![e[8]] + e.subrange(9, 10) =~= e.subrange(8, 10));
    lemma_pull_run_cons(s7, e[7], e.subrange(8, 10));
    assert(seq![e[7]] + e.subrange(8, 10) =~= e.subrange(7, 10));
    lemma_pull_run_cons(s6, e[6], e.subrange(7, 10));
    assert(seq![e[6]] + e.subrange(7, 10) =~= e.subrange(6, 10));
    lemma_pull_run_cons(s5, e[5], e.subrange(6, 10));
    assert(seq![e[5]] + e.subrange(6, 10) =~= e.subrange(5, 10));
    lemma_pull_run_cons(s4, e[4], e.subrange(5, 10));
    assert(seq![e[4]] + e.subrange(5, 10) =~= e.subrange(4, 10));
    lemma_pull_run_cons(s3, e[3], e.subrange(4, 10));
    assert(seq![e[3]] + e.subrange(4, 10) =~= e.subrange(3, 10));
    lemma_pull_run_cons(s2, e[2], e.subrange(3, 10));
    assert(seq![e[2]] + e.subrange(3, 10) =~= e.subrange(2, 10));
    lemma_pull_run_cons(s1, e[1], e.subrange(2, 10));
    assert(seq![e[1]] + e.subrange(2, 10) =~= e.subrange(1, 10));
    lemma_pull_run_cons(s0, e[0], e.subrange(1, 10));
    assert(seq![e[0]] + e.subrange(1, 10) =~= e);
    let run = pull_run(s0, e);
    assert(run.1 =~= seq![
        GitAction::Analyze { branch, fetched },
        GitAction::MergeTrees { local: head, remote: fetched },
        GitAction::WriteMergedTree,
        GitAction::ReadSigningKey,
        GitAction::CreateBuffer {
            fields: CommitFields {
                message: CommitMessage::Merge { remote: fetched, local: head },
                tree,
                parents: Parents::Pair(head, fetched),
            },
        },
        GitAction::Sign { key, buffer },
        GitAction::WriteSignedCommit { buffer, signature },
        GitAction::SetHeadTarget { commit },
        GitAction::CheckoutHead,
        GitAction::Finish,
    ]);
}

/// A merge with conflicts: the conflicts are written into the working tree
/// and reported, and no action, then or after, creates a commit, moves HEAD
/// or a branch, or checks HEAD out.
pub proof fn lemma_conflicted_merge_changes_nothing(
    branch: String,
    fetched: String,
    branch_exists: bool,
    head: String,
    more: Seq<Event>,
)
    ensures
        ({
            let run = pull_run(
                PullState::Fetching { branch },
                seq![
                    Event::Fetched { fetched },
                    Event::Analyzed { fast_forward: false, normal: true, branch_exists, head },
                    Event::MergeComputed { conflicts: true },
                    Event::Completed,
                ] + more,
            );
            &&& run.0 == PullState::Done { outcome: PullOutcome::Conflicted }
            &&& run.1.len() == 4 + more.len()
            &&& run.1[2] == GitAction::CheckoutConflicts
            &&& forall|i: int| 0 <= i < run.1.len() ==> !changes_history(#[trigger] run.1[i])
        }),
{
    let s0 = PullState::Fetching { branch };
    let e1 = Event::Fetched { fetched };
    let e2 = Event::Analyzed { fast_forward: false, normal: true, branch_exists, head };
    let e3 = Event::MergeComputed { conflicts: true };
    let e4 = Event::Completed;
    let s1 = pull_next(s0, e1).0;
    let s2 = pull_next(s1, e2).0;
    let s3 = pull_next(s2, e3).0;
    let s4 = pull_next(s3, e4).0;
    lemma_finished_pull_stays(s4, more);
    lemma_pull_run_cons(s3, e4, more);
    lemma_pull_run_cons(s2, e3, seq![e4] + more);
    assert(seq![e3] + (seq![e4] + more) =~= seq![e3, e4] + more);
    lemma_pull_run_cons(s1, e2, seq![e3, e4] + more);
    assert(seq![e2] + (seq![e3, e4] + more) =~= seq![e2, e3, e4] + more);
    lemma_pull_run_cons(s0, e1, seq![e2, e3, e4] + more);
    assert(seq![e1] + (seq![e2, e3, e4] + more) =~= seq![e1, e2, e3, e4] + more);
    let tail = pull_run(s4, more).1;
    let acts = pull_run(s0, seq![e1, e2, e3, e4] + more).1;
    let a1 = GitAction::Analyze { branch, fetched };
    let a2 = GitAction::MergeTrees { local: head, remote: fetched };
    assert(acts =~= seq![a1] + (seq![a2] + (seq![GitAction::CheckoutConflicts] + (seq![
        GitAction::Finish,
    ] + tail))));
    assert forall|i: int| 0 <= i < acts.len() implies !changes_history(#[trigger] acts[i]) by {
        if i >= 4 {
            assert(acts[i] == tail[i - 4]);
        }
    }
}

} // verus!
