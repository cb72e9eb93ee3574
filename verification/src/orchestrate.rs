//! The run's decision logic: which mode was asked for and whether its
//! required inputs are present (the only fatal errors), what the next
//! step of a repository's procedure is after each outside result, and
//! how per-repository outcomes aggregate into the final report. The
//! caller performs each returned action (a git command or an HTTP call)
//! and feeds the classified result back in; one repository's failure
//! never touches another's outcome.
use vstd::prelude::*;

use crate::api::{ApiError, MergeRequest, MergeRequestRequest, Project, build_merge_request,
    format_success_line, merge_request_url, percent_encoding_of, project_request_url};
use crate::gitcmd::GitError;
use crate::strutil::str_eq;
use crate::urlparse::{UrlError, extract_project_path_from_url, spec_project_path};

verus! {

/// The two things a run can do.
#[derive(Debug, PartialEq, Eq, Structural, Clone, Copy)]
pub enum RunMode {
    /// Open a merge request in every discovered repository.
    Mr,
    /// Create and push a tag in every discovered repository.
    Tag,
}

/// A fatal configuration error: the run stops before any repository is
/// located or processed.
#[derive(Debug, PartialEq, Eq, Structural, Clone, Copy)]
pub enum ConfigError {
    UnsupportedMode,
    MissingToken,
    MissingSourceBranch,
    MissingTargetBranch,
    MissingGitlabUrl,
    MissingCheckoutBranch,
    MissingTagName,
}

/// Selects the run mode: `mr` and `tag` are the only accepted words.
pub fn parse_mode(mode: &str) -> (r: Result<RunMode, ConfigError>)
    ensures
        mode@ == "mr"@ ==> r == Ok::<RunMode, ConfigError>(RunMode::Mr),
        mode@ == "tag"@ ==> r == Ok::<RunMode, ConfigError>(RunMode::Tag),
        mode@ != "mr"@ && mode@ != "tag"@ ==> r == Err::<RunMode, ConfigError>(
            ConfigError::UnsupportedMode,
        ),
{
    proof {
        reveal_strlit("mr");
        reveal_strlit("tag");
        assert("mr"@.len() == 2 && "tag"@.len() == 3);
        assert("mr"@ != "tag"@);
    }
    if str_eq(mode, "mr") {
        Ok(RunMode::Mr)
    } else if str_eq(mode, "tag") {
        Ok(RunMode::Tag)
    } else {
        Err(ConfigError::UnsupportedMode)
    }
}

/// What a merge-request run needs.
pub struct MrConfig {
    pub source_branch: String,
    pub target_branch: String,
    pub gitlab_url: String,
    pub token: String,
}

/// What a tag run needs.
pub struct TagConfig {
    pub checkout_branch: String,
    pub tag_name: String,
    pub tag_message: Option<String>,
}

/// Validates the inputs of a merge-request run. The token comes from
/// the flag when given, else from the environment value; without either
/// the run fails closed, before the per-flag checks.
pub fn resolve_mr_config(
    source_branch: Option<String>,
    target_branch: Option<String>,
    gitlab_url: Option<String>,
    token_flag: Option<String>,
    token_env: Option<String>,
) -> (r: Result<MrConfig, ConfigError>)
    ensures
        token_flag is None && token_env is None ==> r == Err::<MrConfig, ConfigError>(
            ConfigError::MissingToken,
        ),
        (token_flag is Some || token_env is Some) && source_branch is None ==> r == Err::<
            MrConfig,
            ConfigError,
        >(ConfigError::MissingSourceBranch),
        (token_flag is Some || token_env is Some) && source_branch is Some && target_branch is None
            ==> r == Err::<MrConfig, ConfigError>(ConfigError::MissingTargetBranch),
        (token_flag is Some || token_env is Some) && source_branch is Some && target_branch is Some
            && gitlab_url is None ==> r == Err::<MrConfig, ConfigError>(
            ConfigError::MissingGitlabUrl,
        ),
        (token_flag is Some || token_env is Some) && source_branch is Some && target_branch is Some
            && gitlab_url is Some ==> (match r {
            Ok(c) => Some(c.source_branch) == source_branch && Some(c.target_branch)
                == target_branch && Some(c.gitlab_url) == gitlab_url && (match token_flag {
                Some(t) => c.token == t,
                None => Some(c.token) == token_env,
            }),
            Err(_) => false,
        }),
{
    let token = match token_flag {
        Some(t) => t,
        None => match token_env {
            Some(t) => t,
            None => {
                return Err(ConfigError::MissingToken);
            },
        },
    };
    let source = match source_branch {
        Some(s) => s,
        None => {
            return Err(ConfigError::MissingSourceBranch);
        },
    };
    let target = match target_branch {
        Some(t) => t,
        None => {
            return Err(ConfigError::MissingTargetBranch);
        },
    };
    let url = match gitlab_url {
        Some(u) => u,
        None => {
            return Err(ConfigError::MissingGitlabUrl);
        },
    };
    Ok(MrConfig { source_branch: source, target_branch: target, gitlab_url: url, token })
}

/// Validates the inputs of a tag run; the message is optional.
pub fn resolve_tag_config(
    checkout_branch: Option<String>,
    tag_name: Option<String>,
    tag_message: Option<String>,
) -> (r: Result<TagConfig, ConfigError>)
    ensures
        checkout_branch is None ==> r == Err::<TagConfig, ConfigError>(
            ConfigError::MissingCheckoutBranch,
        ),
        checkout_branch is Some && tag_name is None ==> r == Err::<TagConfig, ConfigError>(
            ConfigError::MissingTagName,
        ),
        checkout_branch is Some && tag_name is Some ==> (match r {
            Ok(c) => Some(c.checkout_branch) == checkout_branch && Some(c.tag_name) == tag_name
                && c.tag_message == tag_message,
            Err(_) => false,
        }),
{
    let branch = match checkout_branch {
        Some(b) => b,
        None => {
            return Err(ConfigError::MissingCheckoutBranch);
        },
    };
    let tag = match tag_name {
        Some(t) => t,
        None => {
            return Err(ConfigError::MissingTagName);
        },
    };
    Ok(TagConfig { checkout_branch: branch, tag_name: tag, tag_message })
}

/// Why one repository's attempt failed.
#[derive(Debug)]
pub enum RepoError {
    Git(GitError),
    Parse(UrlError),
    Api(ApiError),
}

/// Where the tag procedure of the repository at `repo` stands.
/// `original` is the branch the repository was on before the procedure
/// started, recorded first and restored last.
pub enum TagState {
    /// Nothing done yet; the current branch must be read.
    AtStart { repo: String },
    /// The configured branch must be checked out.
    CheckingOut { repo: String, original: String },
    /// The tag must be created.
    Tagging { repo: String, original: String },
    /// The tag must be pushed.
    Pushing { repo: String, original: String },
    /// The original branch must be checked out again.
    Restoring { repo: String, original: String },
    /// Everything succeeded and the original branch is restored.
    Done { repo: String, original: String },
    /// A step failed; no further action is taken, so a failure after the
    /// first checkout leaves the repository on the configured branch.
    Failed { error: GitError },
}

/// What the caller must do next in a tag procedure.
pub enum TagAction {
    /// Run `git rev-parse --abbrev-ref HEAD` and report the name.
    ReadCurrentBranch,
    /// Run `git checkout <branch>` (with a best-effort pull).
    Checkout { branch: String },
    /// Run `git tag <tag>`, annotated when a message is given.
    CreateTag { tag: String, message: Option<String> },
    /// Run `git push origin <tag>`.
    PushTag { tag: String },
}

/// What the caller reports back after performing a tag action.
pub enum TagEvent {
    /// The current branch, or a read failure.
    BranchRead { result: Result<String, GitError> },
    /// Whether a checkout succeeded (a failed pull does not count).
    CheckoutDone { ok: bool },
    /// Whether tag creation succeeded.
    TagCreated { ok: bool },
    /// Whether the push succeeded.
    TagPushed { ok: bool },
}

/// The next state of the tag procedure after `ev`. An event that does
/// not belong to the state leaves the state as it is; every failure
/// names the repository, and the branch or tag it concerns.
pub open spec fn spec_tag_next(s: TagState, cfg: TagConfig, ev: TagEvent) -> TagState {
    match (s, ev) {
        (TagState::AtStart { repo }, TagEvent::BranchRead { result }) => match result {
            Ok(branch) => TagState::CheckingOut { repo, original: branch },
            Err(e) => TagState::Failed { error: e },
        },
        (TagState::CheckingOut { repo, original }, TagEvent::CheckoutDone { ok }) => if ok {
            TagState::Tagging { repo, original }
        } else {
            TagState::Failed { error: GitError::Checkout { branch: cfg.checkout_branch, repo } }
        },
        (TagState::Tagging { repo, original }, TagEvent::TagCreated { ok }) => if ok {
            TagState::Pushing { repo, original }
        } else {
            TagState::Failed { error: GitError::CreateTag { tag: cfg.tag_name, repo } }
        },
        (TagState::Pushing { repo, original }, TagEvent::TagPushed { ok }) => if ok {
            TagState::Restoring { repo, original }
        } else {
            TagState::Failed { error: GitError::PushTag { tag: cfg.tag_name, repo } }
        },
        (TagState::Restoring { repo, original }, TagEvent::CheckoutDone { ok }) => if ok {
            TagState::Done { repo, original }
        } else {
            TagState::Failed { error: GitError::Checkout { branch: original, repo } }
        },
        (s0, _) => s0,
    }
}

/// The action a tag procedure asks for in state `s`, if any.
pub open spec fn spec_tag_action(s: TagState, cfg: TagConfig) -> Option<TagAction> {
    match s {
        TagState::AtStart { repo } => Some(TagAction::ReadCurrentBranch),
        TagState::CheckingOut { repo, original } => Some(
            TagAction::Checkout { branch: cfg.checkout_branch },
        ),
        TagState::Tagging { repo, original } => Some(
            TagAction::CreateTag { tag: cfg.tag_name, message: cfg.tag_message },
        ),
        TagState::Pushing { repo, original } => Some(TagAction::PushTag { tag: cfg.tag_name }),
        TagState::Restoring { repo, original } => Some(TagAction::Checkout { branch: original }),
        TagState::Done { repo, original } => None,
        TagState::Failed { error } => None,
    }
}

/// Advances a repository's tag procedure by one reported event.
pub fn tag_next(s: TagState, cfg: &TagConfig, ev: TagEvent) -> (r: TagState)
    ensures
        r == spec_tag_next(s, *cfg, ev),
{
    match (s, ev) {
        (TagState::AtStart { repo }, TagEvent::BranchRead { result }) => match result {
            Ok(branch) => TagState::CheckingOut { repo, original: branch },
            Err(e) => TagState::Failed { error: e },
        },
        (TagState::CheckingOut { repo, original }, TagEvent::CheckoutDone { ok }) => if ok {
            TagState::Tagging { repo, original }
        } else {
            TagState::Failed {
                error: GitError::Checkout { branch: cfg.checkout_branch.clone(), repo },
            }
        },
        (TagState::Tagging { repo, original }, TagEvent::TagCreated { ok }) => if ok {
            TagState::Pushing { repo, original }
        } else {
            TagState::Failed { error: GitError::CreateTag { tag: cfg.tag_name.clone(), repo } }
        },
        (TagState::Pushing { repo, original }, TagEvent::TagPushed { ok }) => if ok {
            TagState::Restoring { repo, original }
        } else {
            TagState::Failed { error: GitError::PushTag { tag: cfg.tag_name.clone(), repo } }
        },
        (TagState::Restoring { repo, original }, TagEvent::CheckoutDone { ok }) => if ok {
            TagState::Done { repo, original }
        } else {
            TagState::Failed { error: GitError::Checkout { branch: original, repo } }
        },
        (s0, _) => s0,
    }
}

/// What the caller must do in state `s` of a tag procedure.
pub fn tag_action(s: &TagState, cfg: &TagConfig) -> (r: Option<TagAction>)
    ensures
        r == spec_tag_action(*s, *cfg),
{
    match s {
        TagState::AtStart { repo } => Some(TagAction::ReadCurrentBranch),
        TagState::CheckingOut { repo, original } => Some(
            TagAction::Checkout { branch: cfg.checkout_branch.clone() },
        ),
        TagState::Tagging { repo, original } => Some(
            TagAction::CreateTag { tag: cfg.tag_name.clone(), message: cfg.tag_message.clone() },
        ),
        TagState::Pushing { repo, original } => Some(
            TagAction::PushTag { tag: cfg.tag_name.clone() },
        ),
        TagState::Restoring { repo, original } => Some(
            TagAction::Checkout { branch: original.clone() },
        ),
        TagState::Done { repo, original } => None,
        TagState::Failed { error } => None,
    }
}

/// The report line for a repository whose tag was created and pushed.
pub fn format_tag_success_line(repo: &str, tag: &str) -> (r: String)
    ensures
        r@ == repo@ + ": created and pushed tag "@ + tag@,
{
    let mut line = repo.to_owned();
    line.append(": created and pushed tag ");
    line.append(tag);
    line
}

/// Law: when every git step succeeds, a repository's tag procedure asks
/// for exactly this sequence of actions — read the current branch, check
/// out the configured branch, create the tag, push it, check the
/// original branch out again — and ends done, on the original branch.
pub proof fn lemma_tag_flow_success(cfg: TagConfig, repo: String, original: String)
    ensures
        ({
            let s0 = TagState::AtStart { repo };
            let s1 = spec_tag_next(s0, cfg, TagEvent::BranchRead { result: Ok(original) });
            let s2 = spec_tag_next(s1, cfg, TagEvent::CheckoutDone { ok: true });
            let s3 = spec_tag_next(s2, cfg, TagEvent::TagCreated { ok: true });
            let s4 = spec_tag_next(s3, cfg, TagEvent::TagPushed { ok: true });
            let s5 = spec_tag_next(s4, cfg, TagEvent::CheckoutDone { ok: true });
            &&& spec_tag_action(s0, cfg) == Some(TagAction::ReadCurrentBranch)
            &&& spec_tag_action(s1, cfg) == Some(
                TagAction::Checkout { branch: cfg.checkout_branch },
            )
            &&& spec_tag_action(s2, cfg) == Some(
                TagAction::CreateTag { tag: cfg.tag_name, message: cfg.tag_message },
            )
            &&& spec_tag_action(s3, cfg) == Some(TagAction::PushTag { tag: cfg.tag_name })
            &&& spec_tag_action(s4, cfg) == Some(TagAction::Checkout { branch: original })
            &&& s5 == (TagState::Done { repo, original })
            &&& spec_tag_action(s5, cfg) is None
        }),
{
}

/// Law: when the push fails, the procedure ends failed with the push
/// error and asks for nothing more — in particular not for the restoring
/// checkout, so the repository stays on the configured branch.
pub proof fn lemma_tag_flow_push_failure(cfg: TagConfig, repo: String, original: String)
    ensures
        ({
            let s = spec_tag_next(
                TagState::Pushing { repo, original },
                cfg,
                TagEvent::TagPushed { ok: false },
            );
            &&& s == (TagState::Failed {
                error: GitError::PushTag { tag: cfg.tag_name, repo },
            })
            &&& spec_tag_action(s, cfg) is None
        }),
{
}

/// Where a repository's merge-request procedure stands.
pub enum MrState {
    /// The remote URL must be read.
    AtStart,
    /// The project at `project_path` must be resolved.
    Resolving { project_path: String },
    /// The merge request must be created on `project`.
    Creating { project: Project },
    /// Everything succeeded; `line` is the repository's report line.
    Done { line: String },
    /// A step failed; no further action is taken.
    Failed { error: RepoError },
}

/// What the caller must do next in a merge-request procedure.
pub enum MrAction {
    /// Run `git remote get-url origin` and report the classified result.
    ReadRemoteUrl,
    /// Send `GET url` with the private token and report the classified
    /// response.
    ResolveProject { url: String },
    /// Send `POST url` with the private token and `request` as JSON body
    /// and report the classified response.
    CreateMergeRequest { url: String, request: MergeRequestRequest },
}

/// What the caller reports back after performing a merge-request action.
pub enum MrEvent {
    /// The classified remote URL.
    RemoteUrlRead { result: Result<String, GitError> },
    /// The classified project-lookup response.
    ProjectResolved { result: Result<Project, ApiError> },
    /// The classified merge-request creation response.
    MergeRequestCreated { result: Result<MergeRequest, ApiError> },
}

/// Advances a repository's merge-request procedure by one reported
/// event: a read remote URL is parsed at once, a resolved project is
/// held for the creation call, and a created merge request becomes the
/// repository's report line. An event that does not belong to the state
/// leaves the state as it is.
pub fn mr_next(s: MrState, ev: MrEvent) -> (r: MrState)
    ensures
        (match (s, ev) {
            (MrState::AtStart, MrEvent::RemoteUrlRead { result }) => match result {
                Ok(url) => match spec_project_path(url@) {
                    Ok(p) => r matches MrState::Resolving { project_path } && project_path@ == p,
                    Err(e) => r == (MrState::Failed { error: RepoError::Parse(e) }),
                },
                Err(e) => r == (MrState::Failed { error: RepoError::Git(e) }),
            },
            (MrState::Resolving { project_path }, MrEvent::ProjectResolved { result }) => match result {
                Ok(p) => r == (MrState::Creating { project: p }),
                Err(e) => r == (MrState::Failed { error: RepoError::Api(e) }),
            },
            (MrState::Creating { project }, MrEvent::MergeRequestCreated { result }) => match result {
                Ok(mr) => r matches MrState::Done { line } && line@ == project.name@ + ": "@
                    + mr.web_url@,
                Err(e) => r == (MrState::Failed { error: RepoError::Api(e) }),
            },
            (s0, _) => r == s0,
        }),
{
    match (s, ev) {
        (MrState::AtStart, MrEvent::RemoteUrlRead { result }) => match result {
            Ok(url) => match extract_project_path_from_url(url.as_str()) {
                Ok(p) => MrState::Resolving { project_path: p },
                Err(e) => MrState::Failed { error: RepoError::Parse(e) },
            },
            Err(e) => MrState::Failed { error: RepoError::Git(e) },
        },
        (MrState::Resolving { project_path }, MrEvent::ProjectResolved { result }) => match result {
            Ok(p) => MrState::Creating { project: p },
            Err(e) => MrState::Failed { error: RepoError::Api(e) },
        },
        (MrState::Creating { project }, MrEvent::MergeRequestCreated { result }) => match result {
            Ok(mr) => MrState::Done {
                line: format_success_line(project.name.as_str(), mr.web_url.as_str()),
            },
            Err(e) => MrState::Failed { error: RepoError::Api(e) },
        },
        (s0, _) => s0,
    }
}

/// What the caller must do in state `s` of a merge-request procedure:
/// the lookup URL is built from the configured API base and the encoded
/// project path, and the creation call carries the configured branches.
pub fn mr_action(s: &MrState, cfg: &MrConfig) -> (r: Option<MrAction>)
    ensures
        (match s {
            MrState::AtStart => r == Some(MrAction::ReadRemoteUrl),
            MrState::Resolving { project_path } => r matches Some(MrAction::ResolveProject { url })
                && url@ == cfg.gitlab_url@ + "/projects/"@ + percent_encoding_of(project_path@),
            MrState::Creating { project } => r matches Some(
                MrAction::CreateMergeRequest { url, request },
            ) && url@ == cfg.gitlab_url@ + "/projects/"@ + crate::api::dec_rep(project.id as nat)
                + "/merge_requests"@ && crate::api::is_mr_request_for(
                request,
                cfg.source_branch@,
                cfg.target_branch@,
            ),
            MrState::Done { line } => r is None,
            MrState::Failed { error } => r is None,
        }),
{
    match s {
        MrState::AtStart => Some(MrAction::ReadRemoteUrl),
        MrState::Resolving { project_path } => Some(
            MrAction::ResolveProject {
                url: project_request_url(cfg.gitlab_url.as_str(), project_path.as_str()),
            },
        ),
        MrState::Creating { project } => Some(
            MrAction::CreateMergeRequest {
                url: merge_request_url(cfg.gitlab_url.as_str(), project.id),
                request: build_merge_request(
                    cfg.source_branch.as_str(),
                    cfg.target_branch.as_str(),
                ),
            },
        ),
        MrState::Done { line } => None,
        MrState::Failed { error } => None,
    }
}

/// The report lines of the successful outcomes, in order.
pub open spec fn successes_of(outcomes: Seq<Result<String, RepoError>>) -> Seq<String>
    decreases outcomes.len(),
{
    if outcomes.len() == 0 {
        Seq::empty()
    } else {
        (match outcomes[0] {
            Ok(line) => seq![line],
            Err(_) => Seq::empty(),
        }) + successes_of(outcomes.drop_first())
    }
}

/// Records one repository's outcome: a success appends its report line,
/// a failure leaves the report untouched (the batch goes on either way).
pub fn record_outcome(results: &mut Vec<String>, outcome: Result<String, RepoError>) -> (r: Option<
    RepoError,
>)
    ensures
        (match outcome {
            Ok(line) => final(results)@ == old(results)@.push(line) && r is None,
            Err(e) => final(results)@ == old(results)@ && r == Some(e),
        }),
{
    match outcome {
        Ok(line) => {
            results.push(line);
            None
        },
        Err(e) => Some(e),
    }
}

/// Law: a failed repository is excluded from the success list and has no
/// effect on it — the successes of a batch are exactly the successes of
/// the same batch without the failed attempt.
pub proof fn lemma_failure_isolated(outcomes: Seq<Result<String, RepoError>>, i: int)
    requires
        0 <= i < outcomes.len(),
        outcomes[i] is Err,
    ensures
        successes_of(outcomes) == successes_of(outcomes.remove(i)),
    decreases outcomes.len(),
{
    if i == 0 {
        assert(outcomes.remove(0) =~= outcomes.drop_first());
    } else {
        assert(outcomes.remove(i).drop_first() =~= outcomes.drop_first().remove(i - 1));
        lemma_failure_isolated(outcomes.drop_first(), i - 1);
        assert(outcomes.remove(i)[0] == outcomes[0]);
    }
}

} // verus!
