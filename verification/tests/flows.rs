use gitlab_batch::api::{ApiError, MergeRequest, Project};
use gitlab_batch::gitcmd::GitError;
use gitlab_batch::orchestrate::{
    ConfigError, MrAction, MrEvent, MrState, RunMode, TagAction, TagEvent, TagState,
    format_tag_success_line, mr_action, mr_next, parse_mode, record_outcome, resolve_mr_config,
    resolve_tag_config, tag_action, tag_next,
};

fn mr_config() -> gitlab_batch::orchestrate::MrConfig {
    resolve_mr_config(
        Some("feature".to_string()),
        Some("main".to_string()),
        Some("https://gitlab.com/api/v4".to_string()),
        Some("token-value".to_string()),
        None,
    )
    .unwrap()
}

fn tag_config() -> gitlab_batch::orchestrate::TagConfig {
    resolve_tag_config(Some("release".to_string()), Some("v1.2.3".to_string()), None).unwrap()
}

#[test]
fn known_modes_are_accepted() {
    assert_eq!(parse_mode("mr"), Ok(RunMode::Mr));
    assert_eq!(parse_mode("tag"), Ok(RunMode::Tag));
}

#[test]
fn unknown_mode_is_fatal() {
    assert_eq!(parse_mode("branch"), Err(ConfigError::UnsupportedMode));
    assert_eq!(parse_mode(""), Err(ConfigError::UnsupportedMode));
}

#[test]
fn missing_token_fails_closed() {
    let r = resolve_mr_config(
        Some("feature".to_string()),
        Some("main".to_string()),
        Some("https://gitlab.com/api/v4".to_string()),
        None,
        None,
    );
    assert!(matches!(r, Err(ConfigError::MissingToken)));
}

#[test]
fn token_flag_wins_over_environment() {
    let c = resolve_mr_config(
        Some("feature".to_string()),
        Some("main".to_string()),
        Some("https://gitlab.com/api/v4".to_string()),
        Some("from-flag".to_string()),
        Some("from-env".to_string()),
    )
    .unwrap();
    assert_eq!(c.token, "from-flag");
}

#[test]
fn environment_token_is_the_fallback() {
    let c = resolve_mr_config(
        Some("feature".to_string()),
        Some("main".to_string()),
        Some("https://gitlab.com/api/v4".to_string()),
        None,
        Some("from-env".to_string()),
    )
    .unwrap();
    assert_eq!(c.token, "from-env");
}

#[test]
fn missing_mr_flags_are_fatal() {
    let token = Some("t".to_string());
    let r = resolve_mr_config(None, Some("main".to_string()), None, token.clone(), None);
    assert!(matches!(r, Err(ConfigError::MissingSourceBranch)));
    let r = resolve_mr_config(Some("f".to_string()), None, None, token.clone(), None);
    assert!(matches!(r, Err(ConfigError::MissingTargetBranch)));
    let r = resolve_mr_config(Some("f".to_string()), Some("m".to_string()), None, token, None);
    assert!(matches!(r, Err(ConfigError::MissingGitlabUrl)));
}

#[test]
fn missing_tag_flags_are_fatal() {
    let r = resolve_tag_config(None, Some("v1".to_string()), None);
    assert!(matches!(r, Err(ConfigError::MissingCheckoutBranch)));
    let r = resolve_tag_config(Some("release".to_string()), None, None);
    assert!(matches!(r, Err(ConfigError::MissingTagName)));
}

#[test]
fn tag_flow_runs_the_full_sequence() {
    let cfg = tag_config();
    let s0 = TagState::AtStart { repo: "/work/proj".to_string() };
    assert!(matches!(tag_action(&s0, &cfg), Some(TagAction::ReadCurrentBranch)));

    let s1 = tag_next(s0, &cfg, TagEvent::BranchRead { result: Ok("main".to_string()) });
    match tag_action(&s1, &cfg) {
        Some(TagAction::Checkout { branch }) => assert_eq!(branch, "release"),
        _ => panic!("expected the configured branch to be checked out"),
    }

    let s2 = tag_next(s1, &cfg, TagEvent::CheckoutDone { ok: true });
    match tag_action(&s2, &cfg) {
        Some(TagAction::CreateTag { tag, message }) => {
            assert_eq!(tag, "v1.2.3");
            assert!(message.is_none());
        }
        _ => panic!("expected the tag to be created"),
    }

    let s3 = tag_next(s2, &cfg, TagEvent::TagCreated { ok: true });
    match tag_action(&s3, &cfg) {
        Some(TagAction::PushTag { tag }) => assert_eq!(tag, "v1.2.3"),
        _ => panic!("expected the tag to be pushed"),
    }

    let s4 = tag_next(s3, &cfg, TagEvent::TagPushed { ok: true });
    match tag_action(&s4, &cfg) {
        Some(TagAction::Checkout { branch }) => assert_eq!(branch, "main"),
        _ => panic!("expected the original branch to be restored"),
    }

    let s5 = tag_next(s4, &cfg, TagEvent::CheckoutDone { ok: true });
    match &s5 {
        TagState::Done { repo, original } => {
            assert_eq!(repo, "/work/proj");
            assert_eq!(original, "main");
        }
        _ => panic!("expected the procedure to be done"),
    }
    assert!(tag_action(&s5, &cfg).is_none());
}

#[test]
fn tag_report_names_repository_and_tag() {
    let line = format_tag_success_line("/work/proj", "v1.2.3");
    assert_eq!(line, "/work/proj: created and pushed tag v1.2.3");
}

#[test]
fn failed_push_skips_the_restore() {
    let cfg = tag_config();
    let s0 = TagState::AtStart { repo: "/work/proj".to_string() };
    let s1 = tag_next(s0, &cfg, TagEvent::BranchRead { result: Ok("main".to_string()) });
    let s2 = tag_next(s1, &cfg, TagEvent::CheckoutDone { ok: true });
    let s3 = tag_next(s2, &cfg, TagEvent::TagCreated { ok: true });
    let s4 = tag_next(s3, &cfg, TagEvent::TagPushed { ok: false });
    match &s4 {
        TagState::Failed { error: GitError::PushTag { tag, repo } } => {
            assert_eq!(tag, "v1.2.3");
            assert_eq!(repo, "/work/proj");
        }
        _ => panic!("expected the push failure to end the procedure"),
    }
    // No restoring checkout is asked for: the repository stays on `release`.
    assert!(tag_action(&s4, &cfg).is_none());
}

#[test]
fn mr_flow_emits_the_report_line() {
    let cfg = mr_config();
    let s0 = MrState::AtStart;
    assert!(matches!(mr_action(&s0, &cfg), Some(MrAction::ReadRemoteUrl)));

    let s1 = mr_next(
        s0,
        MrEvent::RemoteUrlRead { result: Ok("git@gitlab.com:team/proj.git".to_string()) },
    );
    match mr_action(&s1, &cfg) {
        Some(MrAction::ResolveProject { url }) => {
            assert_eq!(url, "https://gitlab.com/api/v4/projects/team%2Fproj");
        }
        _ => panic!("expected a project lookup"),
    }

    let s2 = mr_next(
        s1,
        MrEvent::ProjectResolved {
            result: Ok(Project { id: 42, name: "proj".to_string() }),
        },
    );
    match mr_action(&s2, &cfg) {
        Some(MrAction::CreateMergeRequest { url, request }) => {
            assert_eq!(url, "https://gitlab.com/api/v4/projects/42/merge_requests");
            assert_eq!(request.source_branch, "feature");
            assert_eq!(request.target_branch, "main");
            assert_eq!(request.title, "feature to main");
        }
        _ => panic!("expected a merge-request creation"),
    }

    let s3 = mr_next(
        s2,
        MrEvent::MergeRequestCreated {
            result: Ok(MergeRequest {
                web_url: "https://gitlab.com/team/proj/-/merge_requests/5".to_string(),
            }),
        },
    );
    match &s3 {
        MrState::Done { line } => {
            assert_eq!(line, "proj: https://gitlab.com/team/proj/-/merge_requests/5");
        }
        _ => panic!("expected the procedure to be done"),
    }
    assert!(mr_action(&s3, &cfg).is_none());
}

#[test]
fn mr_flow_fails_on_unparsable_remote() {
    let s1 = mr_next(
        MrState::AtStart,
        MrEvent::RemoteUrlRead { result: Ok("https://example.com/team/proj.git".to_string()) },
    );
    assert!(matches!(s1, MrState::Failed { .. }));
}

#[test]
fn mr_flow_keeps_the_lookup_status() {
    let cfg = mr_config();
    let s1 = mr_next(
        MrState::AtStart,
        MrEvent::RemoteUrlRead { result: Ok("git@gitlab.com:team/proj.git".to_string()) },
    );
    let s2 = mr_next(
        s1,
        MrEvent::ProjectResolved { result: Err(ApiError::HttpStatus { status: 404 }) },
    );
    match &s2 {
        MrState::Failed {
            error: gitlab_batch::orchestrate::RepoError::Api(ApiError::HttpStatus { status }),
        } => assert_eq!(*status, 404),
        _ => panic!("expected the status to be kept"),
    }
    assert!(mr_action(&s2, &cfg).is_none());
}

#[test]
fn failures_are_excluded_and_do_not_stop_the_batch() {
    let mut results: Vec<String> = Vec::new();
    let r = record_outcome(&mut results, Ok("one: url1".to_string()));
    assert!(r.is_none());
    let r = record_outcome(
        &mut results,
        Err(gitlab_batch::orchestrate::RepoError::Api(ApiError::HttpStatus { status: 404 })),
    );
    assert!(r.is_some());
    let r = record_outcome(&mut results, Ok("three: url3".to_string()));
    assert!(r.is_none());
    assert_eq!(results, vec!["one: url1".to_string(), "three: url3".to_string()]);
}
