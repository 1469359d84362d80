use vstd::prelude::*;

verus! {

/// Why a configuration could not be resolved.
#[derive(Clone, Copy, Debug, PartialEq, Eq, Structural)]
pub enum ConfigProblem {
    /// The machine's host name could not be determined.
    Hostname,
    /// The home directory could not be determined.
    HomeDirectory,
    /// The XDG config directory could not be determined.
    ConfigDirectory,
    /// The configuration file is missing, unreadable or malformed.
    File,
}

/// The version-control step that failed.
#[derive(Clone, Copy, Debug, PartialEq, Eq, Structural)]
pub enum VcStep {
    Open,
    Branch,
    Fetch,
    Analyze,
    FastForward,
    CreateBranch,
    Merge,
    CheckoutConflicts,
    WriteMergedTree,
    Checkout,
    ConfigLookup,
    TreeWrite,
    MissingParent,
    CommitBuffer,
    CommitWrite,
    RefUpdate,
    NothingToCommit,
    Push,
    /// An event arrived that the current step does not expect.
    UnexpectedEvent,
}

/// The signing step that failed.
#[derive(Clone, Copy, Debug, PartialEq, Eq, Structural)]
pub enum SignStep {
    KeyNotFound,
    SignFailed,
    SignatureEncoding,
}

/// The closed set of failures of the engine.
#[derive(Clone, Copy, Debug, PartialEq, Eq, Structural)]
pub enum DotfoxError {
    Config(ConfigProblem),
    /// Two sources claim the same target.
    Conflict,
    /// Nothing was found to link.
    NoFiles,
    Filesystem,
    VersionControl(VcStep),
    Signing(SignStep),
}

impl DotfoxError {
    /// The process exit code of this failure's category.
    pub fn exit_code(&self) -> (r: i32)
        ensures
            r == exit_code_of(*self),
    {
        match self {
            DotfoxError::Config(_) => 2,
            DotfoxError::Conflict => 3,
            DotfoxError::NoFiles => 4,
            DotfoxError::Filesystem => 5,
            DotfoxError::VersionControl(_) => 6,
            DotfoxError::Signing(_) => 7,
        }
    }
}

/// Each category of failure has an exit code of its own.
pub open spec fn exit_code_of(e: DotfoxError) -> i32 {
    match e {
        DotfoxError::Config(_) => 2,
        DotfoxError::Conflict => 3,
        DotfoxError::NoFiles => 4,
        DotfoxError::Filesystem => 5,
        DotfoxError::VersionControl(_) => 6,
        DotfoxError::Signing(_) => 7,
    }
}

} // verus!
