use vstd::prelude::*;

use crate::error::DotfoxError;

verus! {

/// The subcommands, each with an optional repository path.
pub enum Commands {
    /// Initialise a directory as a repository.
    Init { path: Option<String> },
    /// Clone a repository and link its files.
    Clone { url: String, path: Option<String> },
    /// Commit without pushing.
    Commit { message: String, path: Option<String> },
    /// Link the repository's files into the home directory.
    Sync { path: Option<String> },
    /// Commit, if a message is given, and push.
    Push { message: Option<String>, path: Option<String> },
    /// Pull, then link.
    Pull { path: Option<String> },
}

/// A parsed command line.
pub struct Cli {
    pub command: Commands,
}

/// The repository directory: the given path, else the current directory
/// (`current_dir`, already made canonical), which must be known.
pub fn resolve_dir(path: Option<String>, current_dir: Option<String>) -> (r: Result<
    String,
    DotfoxError,
>)
    ensures
        path is Some ==> r == Ok::<String, DotfoxError>(path->0),
        path is None && current_dir is Some ==> r == Ok::<String, DotfoxError>(current_dir->0),
        path is None && current_dir is None ==> r == Err::<String, DotfoxError>(
            DotfoxError::Filesystem,
        ),
{
    match path {
        Some(p) => Ok(p),
        None => match current_dir {
            Some(c) => Ok(c),
            None => Err(DotfoxError::Filesystem),
        },
    }
}

/// What follows the last `/` of `u`, or all of `u` where it has none.
pub open spec fn last_segment(u: Seq<char>) -> Seq<char>
    decreases u.len(),
{
    if u.len() == 0 {
        u
    } else if u.last() == '/' {
        Seq::<char>::empty()
    } else {
        last_segment(u.drop_last()).push(u.last())
    }
}

pub open spec fn git_suffix() -> Seq<char> {
    ".git"@
}

/// `s` with every occurrence of `.git` removed, scanning left to right.
pub open spec fn without_git(s: Seq<char>) -> Seq<char>
    decreases s.len(),
{
    if s.len() == 0 {
        s
    } else if s.len() >= 4 && s.subrange(0, 4) == git_suffix() {
        without_git(s.subrange(4, s.len() as int))
    } else {
        seq![s[0]] + without_git(s.drop_first())
    }
}

/// The directory a clone of `url` goes to by default: the last segment of
/// the URL, without `.git`.
pub open spec fn clone_dir(url: Seq<char>) -> Seq<char> {
    without_git(last_segment(url))
}

/// Whether `url` names a repository reached over SSH, whose credentials come
/// from the SSH agent.
pub open spec fn is_ssh_url(url: Seq<char>) -> bool {
    url.len() >= 4 && url.subrange(0, 4) == "git@"@
}

fn starts_with_at(s: &str, i: usize, pat: &str) -> (r: bool)
    requires
        i <= s@.len(),
    ensures
        r == (i + pat@.len() <= s@.len() && s@.subrange(i as int, i + pat@.len()) == pat@),
{
    let n = s.unicode_len();
    let m = pat.unicode_len();
    if m > n - i {
        return false;
    }
    let part = String::from_str(s.substring_char(i, i + m));
    let wanted = String::from_str(pat);
    part.eq(&wanted)
}

pub fn uses_ssh_agent(url: &str) -> (r: bool)
    ensures
        r == is_ssh_url(url@),
{
    proof {
        reveal_strlit("git@");
    }
    starts_with_at(url, 0, "git@")
}

/// The default directory of a clone of `url`.
pub fn clone_dir_name(url: &str) -> (r: String)
    ensures
        r@ == clone_dir(url@),
{
    let n = url.unicode_len();
    let mut start: usize = 0;
    let mut i: usize = 0;
    while i < n
        invariant
            n == url@.len(),
            start <= i <= n,
            last_segment(url@.subrange(0, i as int)) == url@.subrange(start as int, i as int),
        decreases n - i,
    {
        let ghost prefix = url@.subrange(0, i + 1);
        assert(prefix.drop_last() =~= url@.subrange(0, i as int));
        assert(prefix.last() == url@[i as int]);
        if url.get_char(i) == '/' {
            start = i + 1;
            assert(url@.subrange(start as int, i + 1) =~= Seq::<char>::empty());
        } else {
            assert(url@.subrange(start as int, i + 1) =~= url@.subrange(start as int, i as int).push(
                url@[i as int],
            ));
        }
        i += 1;
    }
    assert(url@.subrange(0, n as int) =~= url@);
    let seg = url.substring_char(start, n);
    strip_git(seg)
}

fn strip_git(seg: &str) -> (r: String)
    ensures
        r@ == without_git(seg@),
{
    proof {
        reveal_strlit(".git");
    }
    let n = seg.unicode_len();
    let mut out = String::new();
    let mut i: usize = 0;
    assert(seg@.subrange(0, n as int) =~= seg@);
    while i < n
        invariant
            n == seg@.len(),
            i <= n,
            without_git(seg@) == out@ + without_git(seg@.subrange(i as int, n as int)),
        decreases n - i,
    {
        let ghost rest = seg@.subrange(i as int, n as int);
        proof {
            reveal_strlit(".git");
            assert(git_suffix().len() == 4);
        }
        if starts_with_at(seg, i, ".git") {
            assert(rest.subrange(0, 4) =~= seg@.subrange(i as int, i + 4));
            assert(rest.subrange(4, rest.len() as int) =~= seg@.subrange(i + 4, n as int));
            i += 4;
        } else {
            assert(rest.len() < 4 || rest.subrange(0, 4) != git_suffix()) by {
                if rest.len() >= 4 {
                    assert(rest.subrange(0, 4) =~= seg@.subrange(i as int, i + 4));
                }
            }
            assert(rest.drop_first() =~= seg@.subrange(i + 1, n as int));
            let one = seg.substring_char(i, i + 1);
            assert(one@ =~= seq![rest[0]]);
            let ghost before = out@;
            out.append(one);
            assert(out@ + without_git(seg@.subrange(i + 1, n as int)) =~= before + (seq![rest[0]]
                + without_git(rest.drop_first())));
            i += 1;
        }
    }
    assert(seg@.subrange(n as int, n as int) =~= Seq::<char>::empty());
    assert(out@ + Seq::<char>::empty() =~= out@);
    out
}

/// The refspec that pushes the local branch `shorthand` to its namesake.
pub fn push_refspec(shorthand: &str) -> (r: String)
    ensures
        r@ == "refs/heads/"@ + shorthand@,
{
    String::from_str("refs/heads/").concat(shorthand)
}

} // verus!
