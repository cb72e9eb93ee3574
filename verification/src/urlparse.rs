//! Derivation of a GitLab project path (`group/subgroup/project`) from a
//! remote URL in SSH form (`git@host:path.git`) or HTTPS form
//! (`https://gitlab.com/path.git`). Any other shape is rejected, and a
//! parse that would leave the path empty is rejected as well: the parser
//! never hands back a malformed project path.
use vstd::prelude::*;

use crate::strutil::{find_sub, first_hit, lemma_first_hit_bounds, starts_with_sub, strip_git,
    strip_git_suffix};

verus! {

/// Why a remote URL yielded no project path.
#[derive(Debug, PartialEq, Eq, Structural, Clone, Copy)]
pub enum UrlError {
    /// The URL starts with `git@` but carries no `:`-separated path.
    InvalidSshFormat,
    /// The URL mentions `gitlab.com` but carries no `gitlab.com/` path.
    InvalidHttpsFormat,
    /// The URL is neither a recognized SSH nor HTTPS GitLab form.
    UnsupportedFormat,
}

impl UrlError {
    /// A short description of the failure.
    pub fn message(&self) -> (r: &'static str)
        ensures
            *self == UrlError::InvalidSshFormat ==> r@ == "Invalid SSH URL format"@,
            *self == UrlError::InvalidHttpsFormat ==> r@ == "Invalid HTTPS URL format"@,
            *self == UrlError::UnsupportedFormat ==> r@ == "Unsupported Git URL format"@,
    {
        match self {
            UrlError::InvalidSshFormat => "Invalid SSH URL format",
            UrlError::InvalidHttpsFormat => "Invalid HTTPS URL format",
            UrlError::UnsupportedFormat => "Unsupported Git URL format",
        }
    }
}

/// The `git@` prefix that marks an SSH remote URL.
pub open spec fn ssh_prefix() -> Seq<char> {
    seq!['g', 'i', 't', '@']
}

/// The host name that marks an HTTPS GitLab remote URL.
pub open spec fn gitlab_marker() -> Seq<char> {
    seq!['g', 'i', 't', 'l', 'a', 'b', '.', 'c', 'o', 'm']
}

/// The host name followed by the path separator.
pub open spec fn gitlab_slash() -> Seq<char> {
    seq!['g', 'i', 't', 'l', 'a', 'b', '.', 'c', 'o', 'm', '/']
}

/// What `extract_project_path_from_url` returns, as a function of the
/// URL's character sequence alone.
///
/// An SSH URL contributes everything after its first `:`; an HTTPS URL
/// everything after the first `gitlab.com/`; in both cases trailing
/// `.git` suffixes are stripped and an empty remainder is an error.
pub open spec fn spec_project_path(u: Seq<char>) -> Result<Seq<char>, UrlError> {
    if ssh_prefix().is_prefix_of(u) {
        match first_hit(u, seq![':']) {
            None => Err(UrlError::InvalidSshFormat),
            Some(i) => {
                let cand = strip_git_suffix(u.skip(i + 1));
                if cand.len() > 0 {
                    Ok(cand)
                } else {
                    Err(UrlError::InvalidSshFormat)
                }
            },
        }
    } else if first_hit(u, gitlab_marker()) is Some {
        match first_hit(u, gitlab_slash()) {
            None => Err(UrlError::InvalidHttpsFormat),
            Some(i) => {
                let cand = strip_git_suffix(u.skip(i + 11));
                if cand.len() > 0 {
                    Ok(cand)
                } else {
                    Err(UrlError::InvalidHttpsFormat)
                }
            },
        }
    } else {
        Err(UrlError::UnsupportedFormat)
    }
}

/// Extracts the GitLab project path from a remote URL.
pub fn extract_project_path_from_url(url: &str) -> (r: Result<String, UrlError>)
    ensures
        (match r {
            Ok(p) => spec_project_path(url@) == Ok::<Seq<char>, UrlError>(p@),
            Err(e) => spec_project_path(url@) == Err::<Seq<char>, UrlError>(e),
        }),
{
    proof {
        reveal_strlit("git@");
        reveal_strlit(":");
        reveal_strlit("gitlab.com");
        reveal_strlit("gitlab.com/");
        assert("git@"@ =~= ssh_prefix());
        assert(":"@ =~= seq![':']);
        assert("gitlab.com"@ =~= gitlab_marker());
        assert("gitlab.com/"@ =~= gitlab_slash());
    }
    let n = url.unicode_len();
    if starts_with_sub(url, "git@") {
        match find_sub(url, ":") {
            None => Err(UrlError::InvalidSshFormat),
            Some(i) => {
                proof {
                    lemma_first_hit_bounds(url@, seq![':'], i as int);
                }
                let tail = url.substring_char(i + 1, n);
                proof {
                    assert(tail@ =~= url@.skip(i + 1));
                }
                let cand = strip_git(tail);
                if cand.as_str().unicode_len() > 0 {
                    Ok(cand)
                } else {
                    Err(UrlError::InvalidSshFormat)
                }
            },
        }
    } else if find_sub(url, "gitlab.com").is_some() {
        match find_sub(url, "gitlab.com/") {
            None => Err(UrlError::InvalidHttpsFormat),
            Some(i) => {
                proof {
                    lemma_first_hit_bounds(url@, gitlab_slash(), i as int);
                }
                let tail = url.substring_char(i + 11, n);
                proof {
                    assert(tail@ =~= url@.skip(i + 11));
                }
                let cand = strip_git(tail);
                if cand.as_str().unicode_len() > 0 {
                    Ok(cand)
                } else {
                    Err(UrlError::InvalidHttpsFormat)
                }
            },
        }
    } else {
        Err(UrlError::UnsupportedFormat)
    }
}

} // verus!
