//! Construction of the argument lists handed to the git executable, and
//! classification of what the executable reported back. The caller runs
//! `git` with one of these argument lists inside a repository directory
//! and returns the exit status (and captured stdout where relevant).
use vstd::prelude::*;

use crate::strutil::{trim_spec, trim_str};

verus! {

/// Why a git operation failed: the operation, the repository it ran in,
/// and what it was applied to. Only a non-zero exit of the underlying
/// command produces one; a failed `pull` after a successful checkout is
/// downgraded to a warning and produces none.
#[derive(Debug)]
pub enum GitError {
    /// `git remote get-url origin` exited non-zero.
    RemoteUrl { repo: String },
    /// `git rev-parse --abbrev-ref HEAD` exited non-zero.
    CurrentBranch { repo: String },
    /// `git checkout <branch>` exited non-zero.
    Checkout { branch: String, repo: String },
    /// `git tag ...` exited non-zero.
    CreateTag { tag: String, repo: String },
    /// `git push origin <tag>` exited non-zero.
    PushTag { tag: String, repo: String },
}

/// Arguments for reading the `origin` remote URL of a repository.
pub fn remote_url_args() -> (r: Vec<String>)
    ensures
        r.deep_view() == seq!["remote"@, "get-url"@, "origin"@],
{
    let mut v: Vec<String> = Vec::new();
    v.push("remote".to_owned());
    v.push("get-url".to_owned());
    v.push("origin".to_owned());
    proof {
        assert(v.deep_view() =~= seq!["remote"@, "get-url"@, "origin"@]);
    }
    v
}

/// Arguments for reading the currently checked-out branch name.
pub fn current_branch_args() -> (r: Vec<String>)
    ensures
        r.deep_view() == seq!["rev-parse"@, "--abbrev-ref"@, "HEAD"@],
{
    let mut v: Vec<String> = Vec::new();
    v.push("rev-parse".to_owned());
    v.push("--abbrev-ref".to_owned());
    v.push("HEAD".to_owned());
    proof {
        assert(v.deep_view() =~= seq!["rev-parse"@, "--abbrev-ref"@, "HEAD"@]);
    }
    v
}

/// Arguments for checking out `branch`.
pub fn checkout_args(branch: &str) -> (r: Vec<String>)
    ensures
        r.deep_view() == seq!["checkout"@, branch@],
{
    let mut v: Vec<String> = Vec::new();
    v.push("checkout".to_owned());
    v.push(branch.to_owned());
    proof {
        assert(v.deep_view() =~= seq!["checkout"@, branch@]);
    }
    v
}

/// Arguments for pulling `branch` from `origin` after a checkout.
pub fn pull_args(branch: &str) -> (r: Vec<String>)
    ensures
        r.deep_view() == seq!["pull"@, "origin"@, branch@],
{
    let mut v: Vec<String> = Vec::new();
    v.push("pull".to_owned());
    v.push("origin".to_owned());
    v.push(branch.to_owned());
    proof {
        assert(v.deep_view() =~= seq!["pull"@, "origin"@, branch@]);
    }
    v
}

/// Arguments for creating tag `tag_name`: annotated when a message is
/// given, lightweight otherwise.
pub fn tag_args(tag_name: &str, message: Option<&str>) -> (r: Vec<String>)
    ensures
        (match message {
            Some(m) => r.deep_view() == seq!["tag"@, "-a"@, tag_name@, "-m"@, m@],
            None => r.deep_view() == seq!["tag"@, tag_name@],
        }),
{
    let mut v: Vec<String> = Vec::new();
    v.push("tag".to_owned());
    match message {
        Some(m) => {
            v.push("-a".to_owned());
            v.push(tag_name.to_owned());
            v.push("-m".to_owned());
            v.push(m.to_owned());
            proof {
                assert(v.deep_view() =~= seq!["tag"@, "-a"@, tag_name@, "-m"@, m@]);
            }
        },
        None => {
            v.push(tag_name.to_owned());
            proof {
                assert(v.deep_view() =~= seq!["tag"@, tag_name@]);
            }
        },
    }
    v
}

/// Arguments for pushing tag `tag_name` to `origin`.
pub fn push_tag_args(tag_name: &str) -> (r: Vec<String>)
    ensures
        r.deep_view() == seq!["push"@, "origin"@, tag_name@],
{
    let mut v: Vec<String> = Vec::new();
    v.push("push".to_owned());
    v.push("origin".to_owned());
    v.push(tag_name.to_owned());
    proof {
        assert(v.deep_view() =~= seq!["push"@, "origin"@, tag_name@]);
    }
    v
}

/// Classifies what `git remote get-url origin` reported in `repo`: its
/// trimmed output on success, an error naming the repository on a
/// non-zero exit.
pub fn classify_remote_url(repo: &str, success: bool, stdout: &str) -> (r: Result<
    String,
    GitError,
>)
    ensures
        (match r {
            Ok(url) => success && url@ == trim_spec(stdout@),
            Err(e) => !success && (e matches GitError::RemoteUrl { repo: rp } && rp@ == repo@),
        }),
{
    if success {
        Ok(trim_str(stdout))
    } else {
        Err(GitError::RemoteUrl { repo: repo.to_owned() })
    }
}

/// Classifies what `git rev-parse --abbrev-ref HEAD` reported in
/// `repo`: the trimmed branch name on success, an error naming the
/// repository on a non-zero exit.
pub fn classify_current_branch(repo: &str, success: bool, stdout: &str) -> (r: Result<
    String,
    GitError,
>)
    ensures
        (match r {
            Ok(branch) => success && branch@ == trim_spec(stdout@),
            Err(e) => !success && (e matches GitError::CurrentBranch { repo: rp } && rp@
                == repo@),
        }),
{
    if success {
        Ok(trim_str(stdout))
    } else {
        Err(GitError::CurrentBranch { repo: repo.to_owned() })
    }
}

/// Classifies a checkout followed by a best-effort pull in `repo`: only
/// the checkout's exit decides; a failed pull does not fail the
/// operation. A failure names the branch and the repository.
pub fn checkout_outcome(repo: &str, branch: &str, checkout_ok: bool, pull_ok: bool) -> (r: Result<
    (),
    GitError,
>)
    ensures
        (match r {
            Ok(_) => checkout_ok,
            Err(e) => !checkout_ok && (e matches GitError::Checkout { branch: b, repo: rp } && b@
                == branch@ && rp@ == repo@),
        }),
{
    if checkout_ok {
        let _ = pull_ok;
        Ok(())
    } else {
        Err(GitError::Checkout { branch: branch.to_owned(), repo: repo.to_owned() })
    }
}

/// Classifies what `git tag` reported in `repo`; a failure names the
/// tag and the repository.
pub fn create_tag_outcome(repo: &str, tag_name: &str, success: bool) -> (r: Result<(), GitError>)
    ensures
        (match r {
            Ok(_) => success,
            Err(e) => !success && (e matches GitError::CreateTag { tag: t, repo: rp } && t@
                == tag_name@ && rp@ == repo@),
        }),
{
    if success {
        Ok(())
    } else {
        Err(GitError::CreateTag { tag: tag_name.to_owned(), repo: repo.to_owned() })
    }
}

/// Classifies what `git push origin <tag>` reported in `repo`; a
/// failure names the tag and the repository.
pub fn push_tag_outcome(repo: &str, tag_name: &str, success: bool) -> (r: Result<(), GitError>)
    ensures
        (match r {
            Ok(_) => success,
            Err(e) => !success && (e matches GitError::PushTag { tag: t, repo: rp } && t@
                == tag_name@ && rp@ == repo@),
        }),
{
    if success {
        Ok(())
    } else {
        Err(GitError::PushTag { tag: tag_name.to_owned(), repo: repo.to_owned() })
    }
}

} // verus!
