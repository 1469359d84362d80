use vstd::prelude::*;

use crate::error::{DotfoxError, SignStep, VcStep};
use crate::steps::{CommitFields, CommitMessage, Event, GitAction, Parents};

verus! {

/// A commit still to be made: from the repository's index, or from a tree
/// and parents already known.
pub enum PendingCommit {
    FromIndex { message: String },
    Prepared { fields: CommitFields },
}

/// The state of one commit: plain where no signing key is configured,
/// otherwise serialised, signed detached, and written with its signature.
pub enum CommitState {
    ReadingKey { pending: PendingCommit },
    WritingTree { message: String, key: Option<String> },
    FindingParent { message: String, key: Option<String>, tree: String },
    AwaitingCommit,
    AwaitingBuffer { signing_key: String },
    AwaitingSignature { buffer: String },
    AwaitingSignedCommit,
    UpdatingHead { commit: String },
    Committed { commit: String },
    Failed { error: DotfoxError },
}

pub open spec fn commit_failed(error: DotfoxError) -> (CommitState, GitAction) {
    (CommitState::Failed { error }, GitAction::Finish)
}

pub open spec fn commit_unexpected() -> (CommitState, GitAction) {
    commit_failed(DotfoxError::VersionControl(VcStep::UnexpectedEvent))
}

/// The commit of `fields`: plain without a key, else its buffer is made
/// first, to be signed.
pub open spec fn commit_with(fields: CommitFields, key: Option<String>) -> (CommitState, GitAction) {
    match key {
        None => (CommitState::AwaitingCommit, GitAction::CreateCommit { fields }),
        Some(k) => (CommitState::AwaitingBuffer { signing_key: k }, GitAction::CreateBuffer { fields }),
    }
}

/// The transition of a commit on an event.
pub open spec fn commit_next(s: CommitState, e: Event) -> (CommitState, GitAction) {
    match s {
        CommitState::ReadingKey { pending } => match e {
            Event::KeyLookedUp { key } => match pending {
                PendingCommit::FromIndex { message } => (
                    CommitState::WritingTree { message, key },
                    GitAction::WriteIndexTree,
                ),
                PendingCommit::Prepared { fields } => commit_with(fields, key),
            },
            Event::Failed => commit_failed(DotfoxError::VersionControl(VcStep::ConfigLookup)),
            _ => commit_unexpected(),
        },
        CommitState::WritingTree { message, key } => match e {
            Event::TreeWritten { tree } => (
                CommitState::FindingParent { message, key, tree },
                GitAction::FindParent,
            ),
            Event::Failed => commit_failed(DotfoxError::VersionControl(VcStep::TreeWrite)),
            _ => commit_unexpected(),
        },
        CommitState::FindingParent { message, key, tree } => match e {
            Event::ParentFound { parent } => commit_with(
                CommitFields {
                    message: CommitMessage::Text(message),
                    tree,
                    parents: Parents::Single(parent),
                },
                key,
            ),
            Event::Failed => commit_failed(DotfoxError::VersionControl(VcStep::MissingParent)),
            _ => commit_unexpected(),
        },
        CommitState::AwaitingCommit => match e {
            Event::CommitWritten { commit } => (CommitState::Committed { commit }, GitAction::Finish),
            Event::Failed => commit_failed(DotfoxError::VersionControl(VcStep::CommitWrite)),
            _ => commit_unexpected(),
        },
        CommitState::AwaitingBuffer { signing_key: key } => match e {
            Event::BufferCreated { buffer } => (
                CommitState::AwaitingSignature { buffer },
                GitAction::Sign { key, buffer },
            ),
            Event::Failed => commit_failed(DotfoxError::VersionControl(VcStep::CommitBuffer)),
            _ => commit_unexpected(),
        },
        CommitState::AwaitingSignature { buffer } => match e {
            Event::Signed { signature } => (
                CommitState::AwaitingSignedCommit,
                GitAction::WriteSignedCommit { buffer, signature },
            ),
            Event::KeyNotFound => commit_failed(DotfoxError::Signing(SignStep::KeyNotFound)),
            Event::SignatureNotText => commit_failed(
                DotfoxError::Signing(SignStep::SignatureEncoding),
            ),
            Event::Failed => commit_failed(DotfoxError::Signing(SignStep::SignFailed)),
            _ => commit_unexpected(),
        },
        CommitState::AwaitingSignedCommit => match e {
            Event::CommitWritten { commit } => (
                CommitState::UpdatingHead { commit },
                GitAction::SetHeadTarget { commit },
            ),
            Event::Failed => commit_failed(DotfoxError::VersionControl(VcStep::CommitWrite)),
            _ => commit_unexpected(),
        },
        CommitState::UpdatingHead { commit } => match e {
            Event::Completed => (CommitState::Committed { commit }, GitAction::Finish),
            Event::Failed => commit_failed(DotfoxError::VersionControl(VcStep::RefUpdate)),
            _ => commit_unexpected(),
        },
        CommitState::Committed { commit } => (CommitState::Committed { commit }, GitAction::Finish),
        CommitState::Failed { error } => (CommitState::Failed { error }, GitAction::Finish),
    }
}

/// The states and actions a commit goes through on a sequence of events.
pub open spec fn commit_run(s: CommitState, events: Seq<Event>) -> (CommitState, Seq<GitAction>)
    decreases events.len(),
{
    if events.len() == 0 {
        (s, seq![])
    } else {
        let (s1, a) = commit_next(s, events[0]);
        let (last, rest) = commit_run(s1, events.drop_first());
        (last, seq![a] + rest)
    }
}

fn fail(error: DotfoxError) -> (r: (CommitState, GitAction))
    ensures
        r == commit_failed(error),
{
    (CommitState::Failed { error }, GitAction::Finish)
}

fn unexpected() -> (r: (CommitState, GitAction))
    ensures
        r == commit_unexpected(),
{
    fail(DotfoxError::VersionControl(VcStep::UnexpectedEvent))
}

fn start_commit(fields: CommitFields, key: Option<String>) -> (r: (CommitState, GitAction))
    ensures
        r == commit_with(fields, key),
{
    match key {
        None => (CommitState::AwaitingCommit, GitAction::CreateCommit { fields }),
        Some(k) => (CommitState::AwaitingBuffer { signing_key: k }, GitAction::CreateBuffer { fields }),
    }
}

/// Starts a commit of the repository's index with `message`; `changes` is the
/// number of changed entries in the working tree. With none there is nothing
/// to commit.
pub fn begin_commit(message: String, changes: usize) -> (r: Result<
    (CommitState, GitAction),
    DotfoxError,
>)
    ensures
        changes == 0 ==> r == Err::<(CommitState, GitAction), DotfoxError>(
            DotfoxError::VersionControl(VcStep::NothingToCommit),
        ),
        changes > 0 ==> r == Ok::<(CommitState, GitAction), DotfoxError>(
            (
                CommitState::ReadingKey { pending: PendingCommit::FromIndex { message } },
                GitAction::ReadSigningKey,
            ),
        ),
{
    if changes == 0 {
        return Err(DotfoxError::VersionControl(VcStep::NothingToCommit));
    }
    Ok(
        (
            CommitState::ReadingKey { pending: PendingCommit::FromIndex { message } },
            GitAction::ReadSigningKey,
        ),
    )
}

impl CommitState {
    /// The next state and the action to perform, given what the last action
    /// gave.
    pub fn step(self, event: Event) -> (r: (CommitState, GitAction))
        ensures
            r == commit_next(self, event),
    {
        match self {
            CommitState::ReadingKey { pending } => match event {
                Event::KeyLookedUp { key } => match pending {
                    PendingCommit::FromIndex { message } => (
                        CommitState::WritingTree { message, key },
                        GitAction::WriteIndexTree,
                    ),
                    PendingCommit::Prepared { fields } => start_commit(fields, key),
                },
                Event::Failed => fail(DotfoxError::VersionControl(VcStep::ConfigLookup)),
                _ => unexpected(),
            },
            CommitState::WritingTree { message, key } => match event {
                Event::TreeWritten { tree } => (
                    CommitState::FindingParent { message, key, tree },
                    GitAction::FindParent,
                ),
                Event::Failed => fail(DotfoxError::VersionControl(VcStep::TreeWrite)),
                _ => unexpected(),
            },
            CommitState::FindingParent { message, key, tree } => match event {
                Event::ParentFound { parent } => start_commit(
                    CommitFields {
                        message: CommitMessage::Text(message),
                        tree,
                        parents: Parents::Single(parent),
                    },
                    key,
                ),
                Event::Failed => fail(DotfoxError::VersionControl(VcStep::MissingParent)),
                _ => unexpected(),
            },
            CommitState::AwaitingCommit => match event {
                Event::CommitWritten { commit } => (
                    CommitState::Committed { commit },
                    GitAction::Finish,
                ),
                Event::Failed => fail(DotfoxError::VersionControl(VcStep::CommitWrite)),
                _ => unexpected(),
            },
            CommitState::AwaitingBuffer { signing_key: key } => match event {
                Event::BufferCreated { buffer } => {
                    let signed = buffer.clone();
                    (
                        CommitState::AwaitingSignature { buffer },
                        GitAction::Sign { key, buffer: signed },
                    )
                },
                Event::Failed => fail(DotfoxError::VersionControl(VcStep::CommitBuffer)),
                _ => unexpected(),
            },
            CommitState::AwaitingSignature { buffer } => match event {
                Event::Signed { signature } => (
                    CommitState::AwaitingSignedCommit,
                    GitAction::WriteSignedCommit { buffer, signature },
                ),
                Event::KeyNotFound => fail(DotfoxError::Signing(SignStep::KeyNotFound)),
                Event::SignatureNotText => fail(DotfoxError::Signing(SignStep::SignatureEncoding)),
                Event::Failed => fail(DotfoxError::Signing(SignStep::SignFailed)),
                _ => unexpected(),
            },
            CommitState::AwaitingSignedCommit => match event {
                Event::CommitWritten { commit } => {
                    let target = commit.clone();
                    (CommitState::UpdatingHead { commit }, GitAction::SetHeadTarget { commit: target })
                },
                Event::Failed => fail(DotfoxError::VersionControl(VcStep::CommitWrite)),
                _ => unexpected(),
            },
            CommitState::UpdatingHead { commit } => match event {
                Event::Completed => (CommitState::Committed { commit }, GitAction::Finish),
                Event::Failed => fail(DotfoxError::VersionControl(VcStep::RefUpdate)),
                _ => unexpected(),
            },
            CommitState::Committed { commit } => (CommitState::Committed { commit }, GitAction::Finish),
            CommitState::Failed { error } => (CommitState::Failed { error }, GitAction::Finish),
        }
    }
}

proof fn lemma_commit_run_cons(s: CommitState, e: Event, rest: Seq<Event>)
    ensures
        commit_run(s, seq![e] + rest) == (
            commit_run(commit_next(s, e).0, rest).0,
            seq![commit_next(s, e).1] + commit_run(commit_next(s, e).0, rest).1,
        ),
{
    assert((seq![e] + rest).drop_first() =~= rest);
    assert((seq![e] + rest)[0] == e);
}

/// With a signing key, the buffer that is signed is the one serialised from
/// the commit's fields, and the commit written is that same buffer with that
/// signature attached, after which HEAD points at it. Without one, a plain
/// commit is made from the very same fields, with no signature.
pub proof fn lemma_signed_commit_carries_its_buffer(
    fields: CommitFields,
    key: String,
    buffer: String,
    signature: String,
    commit: String,
)
    ensures
        ({
            let start = CommitState::ReadingKey { pending: PendingCommit::Prepared { fields } };
            let signed = commit_run(
                start,
                seq![
                    Event::KeyLookedUp { key: Some(key) },
                    Event::BufferCreated { buffer },
                    Event::Signed { signature },
                    Event::CommitWritten { commit },
                    Event::Completed,
                ],
            );
            let plain = commit_run(
                start,
                seq![Event::KeyLookedUp { key: None }, Event::CommitWritten { commit }],
            );
            &&& signed.0 == CommitState::Committed { commit }
            &&& signed.1 == seq![
                GitAction::CreateBuffer { fields },
                GitAction::Sign { key, buffer },
                GitAction::WriteSignedCommit { buffer, signature },
                GitAction::SetHeadTarget { commit },
                GitAction::Finish,
            ]
            &&& plain.0 == CommitState::Committed { commit }
            &&& plain.1 == seq![GitAction::CreateCommit { fields }, GitAction::Finish]
        }),
{
    let start = CommitState::ReadingKey { pending: PendingCommit::Prepared { fields } };
    let e1 = Event::KeyLookedUp { key: Some(key) };
    let e2 = Event::BufferCreated { buffer };
    let e3 = Event::Signed { signature };
    let e4 = Event::CommitWritten { commit };
    let e5 = Event::Completed;
    let s1 = commit_next(start, e1).0;
    let s2 = commit_next(s1, e2).0;
    let s3 = commit_next(s2, e3).0;
    let s4 = commit_next(s3, e4).0;
    let s5 = commit_next(s4, e5).0;
    let none = Seq::<Event>::empty();
    lemma_commit_run_cons(s4, e5, none);
    lemma_commit_run_cons(s3, e4, seq![e5]);
    assert(seq![e4] + seq![e5] =~= seq![e4, e5]);
    lemma_commit_run_cons(s2, e3, seq![e4, e5]);
    assert(seq![e3] + seq![e4, e5] =~= seq![e3, e4, e5]);
    lemma_commit_run_cons(s1, e2, seq![e3, e4, e5]);
    assert(seq![e2] + seq![e3, e4, e5] =~= seq![e2, e3, e4, e5]);
    lemma_commit_run_cons(start, e1, seq![e2, e3, e4, e5]);
    assert(seq![e1] + seq![e2, e3, e4, e5] =~= seq![e1, e2, e3, e4, e5]);
    let signed = commit_run(start, seq![e1, e2, e3, e4, e5]);
    assert(signed.1 =~= seq![
        GitAction::CreateBuffer { fields },
        GitAction::Sign { key, buffer },
        GitAction::WriteSignedCommit { buffer, signature },
        GitAction::SetHeadTarget { commit },
        GitAction::Finish,
    ]);

    let no_key = Event::KeyLookedUp { key: None };
    let unsigned = commit_next(start, no_key).0;
    lemma_commit_run_cons(unsigned, e4, none);
    lemma_commit_run_cons(start, no_key, seq![e4]);
    assert(seq![no_key] + seq![e4] =~= seq![no_key, e4]);
    let plain = commit_run(start, seq![no_key, e4]);
    assert(plain.1 =~= seq![GitAction::CreateCommit { fields }, GitAction::Finish]);
}

} // verus!
