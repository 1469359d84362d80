use dotfox::commit::{begin_commit, CommitState, PendingCommit};
use dotfox::error::{DotfoxError, SignStep, VcStep};
use dotfox::pull::{begin_pull, get_current_branch, PullOutcome, PullState};
use dotfox::steps::{CommitFields, CommitMessage, Event, GitAction, Parents};

fn s(x: &str) -> String {
    x.to_string()
}

fn run(events: Vec<Event>) -> (PullState, Vec<GitAction>) {
    let (mut state, first) = begin_pull(s("refs/heads/main"));
    let mut actions = vec![first];
    for e in events {
        let (next, a) = state.step(e);
        state = next;
        actions.push(a);
    }
    (state, actions)
}

fn makes_commit(a: &GitAction) -> bool {
    matches!(a, GitAction::CreateCommit { .. } | GitAction::WriteSignedCommit { .. })
}

#[test]
fn fast_forward_moves_branch_without_commit() {
    let (state, actions) = run(vec![
        Event::Fetched { fetched: s("f1") },
        Event::Analyzed { fast_forward: true, normal: false, branch_exists: true, head: s("h0") },
        Event::Completed,
    ]);
    assert!(matches!(&actions[0], GitAction::Fetch { branch } if branch == "refs/heads/main"));
    assert!(matches!(&actions[1], GitAction::Analyze { fetched, .. } if fetched == "f1"));
    assert!(matches!(&actions[2], GitAction::FastForward { branch, target }
        if branch == "refs/heads/main" && target == "f1"));
    assert!(matches!(&actions[3], GitAction::Finish));
    assert!(!actions.iter().any(makes_commit));
    assert!(matches!(state, PullState::Done { outcome: PullOutcome::FastForwarded { target } } if target == "f1"));
}

#[test]
fn missing_branch_is_created_at_fetched_commit() {
    let (state, actions) = run(vec![
        Event::Fetched { fetched: s("f1") },
        Event::Analyzed { fast_forward: true, normal: false, branch_exists: false, head: s("") },
        Event::Completed,
    ]);
    assert!(matches!(&actions[2], GitAction::CreateBranch { target, .. } if target == "f1"));
    assert!(matches!(state, PullState::Done { outcome: PullOutcome::BranchCreated { .. } }));
}

#[test]
fn clean_merge_creates_two_parent_commit() {
    let (state, actions) = run(vec![
        Event::Fetched { fetched: s("remote1") },
        Event::Analyzed { fast_forward: false, normal: true, branch_exists: true, head: s("local1") },
        Event::MergeComputed { conflicts: false },
        Event::TreeWritten { tree: s("tree1") },
        Event::KeyLookedUp { key: None },
        Event::CommitWritten { commit: s("merge1") },
        Event::Completed,
    ]);
    match &actions[5] {
        GitAction::CreateCommit { fields } => {
            assert!(matches!(&fields.parents, Parents::Pair(a, b) if a == "local1" && b == "remote1"));
            assert_eq!(fields.tree, "tree1");
            assert_eq!(fields.message.text(), "Merge: remote1 into local1");
        }
        _ => panic!("expected a commit"),
    }
    assert!(matches!(&actions[6], GitAction::CheckoutHead));
    assert!(matches!(state, PullState::Done { outcome: PullOutcome::Merged { commit } } if commit == "merge1"));
}

#[test]
fn signed_merge_signs_the_buffer_it_commits() {
    let (state, actions) = run(vec![
        Event::Fetched { fetched: s("r") },
        Event::Analyzed { fast_forward: false, normal: true, branch_exists: true, head: s("l") },
        Event::MergeComputed { conflicts: false },
        Event::TreeWritten { tree: s("t") },
        Event::KeyLookedUp { key: Some(s("KEY")) },
        Event::BufferCreated { buffer: s("tree t\nparent l\nparent r\n") },
        Event::Signed { signature: s("-----BEGIN PGP SIGNATURE-----") },
        Event::CommitWritten { commit: s("c") },
        Event::Completed,
        Event::Completed,
    ]);
    assert!(matches!(&actions[5], GitAction::CreateBuffer { .. }));
    assert!(matches!(&actions[6], GitAction::Sign { key, buffer }
        if key == "KEY" && buffer == "tree t\nparent l\nparent r\n"));
    assert!(matches!(&actions[7], GitAction::WriteSignedCommit { buffer, signature }
        if buffer == "tree t\nparent l\nparent r\n" && signature == "-----BEGIN PGP SIGNATURE-----"));
    assert!(matches!(&actions[8], GitAction::SetHeadTarget { commit } if commit == "c"));
    assert!(matches!(&actions[9], GitAction::CheckoutHead));
    assert!(matches!(state, PullState::Done { outcome: PullOutcome::Merged { commit } } if commit == "c"));
}

#[test]
fn conflicted_merge_commits_nothing() {
    let (state, actions) = run(vec![
        Event::Fetched { fetched: s("r") },
        Event::Analyzed { fast_forward: false, normal: true, branch_exists: true, head: s("l") },
        Event::MergeComputed { conflicts: true },
        Event::Completed,
        Event::Completed,
    ]);
    assert!(matches!(&actions[3], GitAction::CheckoutConflicts));
    assert!(!actions.iter().any(|a| makes_commit(a)
        || matches!(a, GitAction::SetHeadTarget { .. } | GitAction::CheckoutHead)));
    assert!(matches!(state, PullState::Done { outcome: PullOutcome::Conflicted }));
}

#[test]
fn up_to_date_does_nothing() {
    let (state, actions) = run(vec![
        Event::Fetched { fetched: s("r") },
        Event::Analyzed { fast_forward: false, normal: false, branch_exists: true, head: s("r") },
    ]);
    assert!(matches!(&actions[2], GitAction::Finish));
    assert!(matches!(state, PullState::Done { outcome: PullOutcome::UpToDate }));
}

#[test]
fn failures_name_their_step() {
    let (state, _) = run(vec![Event::Failed]);
    assert!(matches!(state, PullState::Failed { error: DotfoxError::VersionControl(VcStep::Fetch) }));
    let (state, _) = run(vec![Event::Fetched { fetched: s("r") }, Event::Completed]);
    assert!(matches!(state, PullState::Failed { error: DotfoxError::VersionControl(VcStep::UnexpectedEvent) }));
    let (state, _) = run(vec![
        Event::Fetched { fetched: s("r") },
        Event::Analyzed { fast_forward: false, normal: true, branch_exists: true, head: s("l") },
        Event::Failed,
    ]);
    assert!(matches!(state, PullState::Failed { error: DotfoxError::VersionControl(VcStep::Merge) }));
    let (state, _) = run(vec![
        Event::Fetched { fetched: s("r") },
        Event::Analyzed { fast_forward: false, normal: true, branch_exists: true, head: s("l") },
        Event::MergeComputed { conflicts: false },
        Event::TreeWritten { tree: s("t") },
        Event::KeyLookedUp { key: Some(s("K")) },
        Event::BufferCreated { buffer: s("b") },
        Event::KeyNotFound,
    ]);
    assert!(matches!(state, PullState::Failed { error: DotfoxError::Signing(SignStep::KeyNotFound) }));
}

fn commit_run(start: CommitState, events: Vec<Event>) -> (CommitState, Vec<GitAction>) {
    let mut state = start;
    let mut actions = vec![];
    for e in events {
        let (next, a) = state.step(e);
        state = next;
        actions.push(a);
    }
    (state, actions)
}

#[test]
fn index_commit_plain_and_signed() {
    let (start, first) = begin_commit(s("update"), 3).unwrap();
    assert!(matches!(first, GitAction::ReadSigningKey));
    let (state, actions) = commit_run(start, vec![
        Event::KeyLookedUp { key: None },
        Event::TreeWritten { tree: s("t") },
        Event::ParentFound { parent: s("p") },
        Event::CommitWritten { commit: s("c") },
    ]);
    assert!(matches!(&actions[0], GitAction::WriteIndexTree));
    assert!(matches!(&actions[1], GitAction::FindParent));
    match &actions[2] {
        GitAction::CreateCommit { fields } => {
            assert!(matches!(&fields.parents, Parents::Single(p) if p == "p"));
            assert_eq!(fields.message.text(), "update");
        }
        _ => panic!("expected a plain commit"),
    }
    assert!(matches!(state, CommitState::Committed { commit } if commit == "c"));

    let (start, _) = begin_commit(s("update"), 1).unwrap();
    let (state, actions) = commit_run(start, vec![
        Event::KeyLookedUp { key: Some(s("K")) },
        Event::TreeWritten { tree: s("t") },
        Event::ParentFound { parent: s("p") },
        Event::BufferCreated { buffer: s("buf") },
        Event::SignatureNotText,
    ]);
    assert!(matches!(&actions[2], GitAction::CreateBuffer { .. }));
    assert!(matches!(&actions[3], GitAction::Sign { key, buffer } if key == "K" && buffer == "buf"));
    assert!(matches!(state, CommitState::Failed { error: DotfoxError::Signing(SignStep::SignatureEncoding) }));
}

#[test]
fn prepared_commit_unsigned_uses_same_fields() {
    let fields = CommitFields {
        message: CommitMessage::Text(s("m")),
        tree: s("t"),
        parents: Parents::Single(s("p")),
    };
    let start = CommitState::ReadingKey { pending: PendingCommit::Prepared { fields } };
    let (state, actions) = commit_run(start, vec![Event::KeyLookedUp { key: None }, Event::Failed]);
    assert!(matches!(&actions[0], GitAction::CreateCommit { fields }
        if fields.tree == "t" && matches!(&fields.parents, Parents::Single(p) if p == "p")));
    assert!(matches!(state, CommitState::Failed { error: DotfoxError::VersionControl(VcStep::CommitWrite) }));
}

#[test]
fn nothing_to_commit() {
    assert!(matches!(begin_commit(s("m"), 0), Err(DotfoxError::VersionControl(VcStep::NothingToCommit))));
}

#[test]
fn branch_of_head() {
    assert_eq!(get_current_branch(true, Some(s("refs/heads/main"))), Ok(s("refs/heads/main")));
    assert_eq!(get_current_branch(false, Some(s("HEAD"))), Err(DotfoxError::VersionControl(VcStep::Branch)));
    assert_eq!(get_current_branch(true, None), Err(DotfoxError::VersionControl(VcStep::Branch)));
}
