use dotfox::link::{classify_link, ExistingTarget, LinkOutcome, SymlinkAttempt};

fn existing(is_symlink: bool, target: Option<&str>, source: Option<&str>) -> ExistingTarget {
    ExistingTarget {
        is_symlink,
        target_resolved: target.map(|t| t.to_string()),
        source_resolved: source.map(|t| t.to_string()),
    }
}

#[test]
fn fresh_link_is_created() {
    let e = existing(false, None, None);
    assert_eq!(classify_link(SymlinkAttempt::Linked, &e), LinkOutcome::Created);
    assert!(LinkOutcome::Created.is_success());
}

#[test]
fn correct_link_is_already_correct() {
    let e = existing(true, Some("/r/a"), Some("/r/a"));
    let o = classify_link(SymlinkAttempt::TargetExists, &e);
    assert_eq!(o, LinkOutcome::AlreadyCorrect);
    assert!(o.is_success());
}

#[test]
fn link_elsewhere_is_tainted() {
    let e = existing(true, Some("/other"), Some("/r/a"));
    assert_eq!(classify_link(SymlinkAttempt::TargetExists, &e), LinkOutcome::Tainted);
    let dangling = existing(true, None, Some("/r/a"));
    assert_eq!(classify_link(SymlinkAttempt::TargetExists, &dangling), LinkOutcome::Tainted);
    assert!(!LinkOutcome::Tainted.is_success());
}

#[test]
fn real_file_is_blocked() {
    let e = existing(false, Some("/h/a"), Some("/r/a"));
    let o = classify_link(SymlinkAttempt::TargetExists, &e);
    assert_eq!(o, LinkOutcome::Blocked);
    assert!(!o.is_success());
}

#[test]
fn other_failures() {
    let e = existing(true, Some("/r/a"), None);
    assert_eq!(classify_link(SymlinkAttempt::TargetExists, &e), LinkOutcome::Failed);
    let e = existing(false, None, None);
    assert_eq!(classify_link(SymlinkAttempt::OtherFailure, &e), LinkOutcome::Failed);
}
