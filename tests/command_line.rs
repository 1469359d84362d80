use dotfox::cli::{clone_dir_name, push_refspec, resolve_dir, uses_ssh_agent};
use dotfox::error::{ConfigProblem, DotfoxError, SignStep, VcStep};

#[test]
fn clone_directory_from_url() {
    assert_eq!(clone_dir_name("https://github.com/user/dotfiles.git"), "dotfiles");
    assert_eq!(clone_dir_name("git@github.com:user/dots"), "dots");
    assert_eq!(clone_dir_name("plain"), "plain");
    assert_eq!(clone_dir_name("https://host/a.gitx.git"), "ax");
    assert_eq!(clone_dir_name("https://host/"), "");
}

#[test]
fn ssh_urls_use_the_agent() {
    assert!(uses_ssh_agent("git@github.com:user/dots.git"));
    assert!(!uses_ssh_agent("https://github.com/user/dots.git"));
    assert!(!uses_ssh_agent("git"));
}

#[test]
fn repository_directory() {
    assert_eq!(resolve_dir(Some("/r".to_string()), Some("/cwd".to_string())), Ok("/r".to_string()));
    assert_eq!(resolve_dir(None, Some("/cwd".to_string())), Ok("/cwd".to_string()));
    assert_eq!(resolve_dir(None, None), Err(DotfoxError::Filesystem));
}

#[test]
fn refspec_of_branch() {
    assert_eq!(push_refspec("main"), "refs/heads/main");
}

#[test]
fn exit_codes_are_distinct() {
    let codes = [
        DotfoxError::Config(ConfigProblem::File).exit_code(),
        DotfoxError::Conflict.exit_code(),
        DotfoxError::NoFiles.exit_code(),
        DotfoxError::Filesystem.exit_code(),
        DotfoxError::VersionControl(VcStep::Fetch).exit_code(),
        DotfoxError::Signing(SignStep::KeyNotFound).exit_code(),
    ];
    for i in 0..codes.len() {
        for j in 0..codes.len() {
            assert_eq!(i == j, codes[i] == codes[j]);
        }
    }
    assert_eq!(codes[0], 2);
}
