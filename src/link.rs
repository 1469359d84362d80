use vstd::prelude::*;

verus! {

/// What creating one symbolic link reported.
#[derive(Clone, Copy, Debug, PartialEq, Eq, Structural)]
pub enum SymlinkAttempt {
    /// The link was created.
    Linked,
    /// Something already stands at the target path.
    TargetExists,
    /// The link could not be created for another reason.
    OtherFailure,
}

/// What was found at a target path that already exists.
pub struct ExistingTarget {
    /// The target is itself a symbolic link.
    pub is_symlink: bool,
    /// The canonical path that the target resolves to, where it resolves.
    pub target_resolved: Option<String>,
    /// The canonical path of the planned source, where it resolves.
    pub source_resolved: Option<String>,
}

/// How applying one planned link ended.
#[derive(Clone, Copy, Debug, PartialEq, Eq, Structural)]
pub enum LinkOutcome {
    /// The link was created; nothing stood there before.
    Created,
    /// The target already links to the source.
    AlreadyCorrect,
    /// The target is a link that resolves elsewhere; it is left alone.
    Tainted,
    /// The target is a real file or directory; it is left alone.
    Blocked,
    /// The link could not be created or checked.
    Failed,
}

/// The outcome of one link, from what the attempt reported and what stands
/// at the target.
pub open spec fn outcome_of(
    attempt: SymlinkAttempt,
    is_symlink: bool,
    target_resolved: Option<Seq<char>>,
    source_resolved: Option<Seq<char>>,
) -> LinkOutcome {
    match attempt {
        SymlinkAttempt::Linked => LinkOutcome::Created,
        SymlinkAttempt::OtherFailure => LinkOutcome::Failed,
        SymlinkAttempt::TargetExists => if !is_symlink {
            LinkOutcome::Blocked
        } else if source_resolved is None {
            LinkOutcome::Failed
        } else if target_resolved == source_resolved {
            LinkOutcome::AlreadyCorrect
        } else {
            LinkOutcome::Tainted
        },
    }
}

pub open spec fn opt_view(o: Option<String>) -> Option<Seq<char>> {
    match o {
        Some(s) => Some(s@),
        None => None,
    }
}

/// Whether an outcome is a silent success.
pub open spec fn is_success(o: LinkOutcome) -> bool {
    o == LinkOutcome::Created || o == LinkOutcome::AlreadyCorrect
}

impl LinkOutcome {
    pub fn is_success(&self) -> (r: bool)
        ensures
            r == is_success(*self),
    {
        match self {
            LinkOutcome::Created | LinkOutcome::AlreadyCorrect => true,
            _ => false,
        }
    }
}

/// Classifies one applied link. The only change ever made on disk is the
/// creation of a link where nothing stood; an existing target, link or not,
/// is only reported.
pub fn classify_link(attempt: SymlinkAttempt, existing: &ExistingTarget) -> (r: LinkOutcome)
    ensures
        r == outcome_of(
            attempt,
            existing.is_symlink,
            opt_view(existing.target_resolved),
            opt_view(existing.source_resolved),
        ),
{
    match attempt {
        SymlinkAttempt::Linked => LinkOutcome::Created,
        SymlinkAttempt::OtherFailure => LinkOutcome::Failed,
        SymlinkAttempt::TargetExists => {
            if !existing.is_symlink {
                return LinkOutcome::Blocked;
            }
            match (&existing.source_resolved, &existing.target_resolved) {
                (None, _) => LinkOutcome::Failed,
                (Some(s), Some(t)) => {
                    if s.eq(t) {
                        LinkOutcome::AlreadyCorrect
                    } else {
                        LinkOutcome::Tainted
                    }
                },
                (Some(_), None) => LinkOutcome::Tainted,
            }
        },
    }
}

/// A target that already links to the source is no error: the outcome is
/// `AlreadyCorrect`.
pub proof fn lemma_correct_link_is_noop(path: Seq<char>)
    ensures
        outcome_of(SymlinkAttempt::TargetExists, true, Some(path), Some(path))
            == LinkOutcome::AlreadyCorrect,
        is_success(LinkOutcome::AlreadyCorrect),
{
}

/// A target that is a real file or directory is `Blocked`, whatever it
/// resolves to, and the outcome is not a success.
pub proof fn lemma_real_file_blocks(
    target_resolved: Option<Seq<char>>,
    source_resolved: Option<Seq<char>>,
)
    ensures
        outcome_of(SymlinkAttempt::TargetExists, false, target_resolved, source_resolved)
            == LinkOutcome::Blocked,
        !is_success(LinkOutcome::Blocked),
{
}

} // verus!
