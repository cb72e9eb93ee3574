use gitlab_batch::urlparse::{UrlError, extract_project_path_from_url};

#[test]
fn ssh_url_parses() {
    let r = extract_project_path_from_url("git@gitlab.com:team/proj.git");
    assert_eq!(r.unwrap(), "team/proj");
}

#[test]
fn https_url_parses() {
    let r = extract_project_path_from_url("https://gitlab.com/team/sub/proj.git");
    assert_eq!(r.unwrap(), "team/sub/proj");
}

#[test]
fn unsupported_host_fails() {
    let r = extract_project_path_from_url("https://example.com/team/proj.git");
    assert_eq!(r.unwrap_err(), UrlError::UnsupportedFormat);
}

#[test]
fn ssh_without_colon_fails() {
    let r = extract_project_path_from_url("git@gitlab.com");
    assert_eq!(r.unwrap_err(), UrlError::InvalidSshFormat);
}

#[test]
fn ssh_with_empty_path_fails() {
    let r = extract_project_path_from_url("git@gitlab.com:.git");
    assert_eq!(r.unwrap_err(), UrlError::InvalidSshFormat);
}

#[test]
fn https_without_path_fails() {
    let r = extract_project_path_from_url("https://gitlab.com");
    assert_eq!(r.unwrap_err(), UrlError::InvalidHttpsFormat);
}

#[test]
fn repeated_git_suffix_is_stripped() {
    let r = extract_project_path_from_url("git@gitlab.com:team/proj.git.git");
    assert_eq!(r.unwrap(), "team/proj");
}

#[test]
fn ssh_path_keeps_later_colons() {
    let r = extract_project_path_from_url("git@gitlab.com:team:odd/proj.git");
    assert_eq!(r.unwrap(), "team:odd/proj");
}

#[test]
fn ssh_takes_precedence_over_host_match() {
    let r = extract_project_path_from_url("git@gitlab.com:gitlab.com/proj.git");
    assert_eq!(r.unwrap(), "gitlab.com/proj");
}

#[test]
fn https_url_without_suffix_parses() {
    let r = extract_project_path_from_url("https://gitlab.com/team/proj");
    assert_eq!(r.unwrap(), "team/proj");
}

#[test]
fn error_messages_name_the_form() {
    assert_eq!(UrlError::InvalidSshFormat.message(), "Invalid SSH URL format");
    assert_eq!(UrlError::InvalidHttpsFormat.message(), "Invalid HTTPS URL format");
    assert_eq!(UrlError::UnsupportedFormat.message(), "Unsupported Git URL format");
}
