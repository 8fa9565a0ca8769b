use scieldas::services::crates::{
    crate_downloads, crate_url, crate_version, crate_version_downloads, crate_version_url,
};
use scieldas::services::github::{
    followers, forks, issues, issues_url, latest_release, pull_requests_url, repo_url, stars,
    user_url, watchers, workflow, workflow_url, OpenState, OpenStateError, WorkflowState,
};
use scieldas::services::{codestyles, crates, github, licenses};
use scieldas::{RenderableScield, ScieldRequest, SupportedFiletype};
use serde_json::Value;

fn payload(text: &str) -> Option<Value> {
    Some(serde_json::from_str::<Value>(text).unwrap())
}

fn req(segment: &str) -> ScieldRequest {
    ScieldRequest::from_param(segment).unwrap()
}

#[test]
fn crate_urls() {
    assert_eq!(crate_url("rand"), "https://crates.io/api/v1/crates//rand");
    assert_eq!(crate_version_url("rand", "0.8.5"), "https://crates.io/api/v1/crates//rand/0.8.5");
}

#[test]
fn crate_downloads_from_payload() {
    let p = payload(r#"{"crate":{"downloads":1234567,"max_version":"0.8.5"}}"#);
    let b = crate_downloads(&p, req("rand.svg"));
    assert_eq!(b.value, Some(1_234_567));
    assert_eq!(b.filetype, SupportedFiletype::Svg);
    assert_eq!(b.scield.render(&b.value), "Downloads :: 1m");
    let v = crate_version(&p, req("rand.txt"));
    assert_eq!(v.scield.render(&v.value), "Version :: 0.8.5");
}

#[test]
fn crate_version_downloads_from_payload() {
    let p = payload(r#"{"version":{"downloads":4321}}"#);
    let b = crate_version_downloads(&p, req("0.8.5.txt"));
    assert_eq!(b.scield.render(&b.value), "Downloads :: 4k");
}

#[test]
fn missing_values_fall_back() {
    let b = crate_downloads(&None, req("rand.txt"));
    assert_eq!(b.scield.render(&b.value), "Downloads :: N/A");
    let p = payload(r#"{"crate":{"downloads":"many"}}"#);
    let b = crate_downloads(&p, req("rand.txt"));
    assert_eq!(b.scield.render(&b.value), "Downloads :: N/A");
    let v = crate_version(&payload(r#"{"crate":{}}"#), req("rand.txt"));
    assert_eq!(v.scield.render(&v.value), "Version :: N/A");
}

#[test]
fn github_urls() {
    assert_eq!(repo_url("o", "r"), "https://api.github.com/repos/o/r");
    assert_eq!(user_url("u"), "https://api.github.com/users/u");
    assert_eq!(
        issues_url(OpenState::Open, "o", "r"),
        "https://api.github.com/search/issues?q=repo:o/r+is:issue+is:open"
    );
    assert_eq!(
        pull_requests_url(OpenState::All, "o", "r"),
        "https://api.github.com/search/issues?q=repo:o/r+is:pr"
    );
    assert_eq!(
        workflow_url("o", "r", "ci.yml", "main"),
        "https://api.github.com/repos/o/r/actions/workflows/ci.yml/runs?branch=main&per_page=1&status=completed"
    );
}

#[test]
fn open_state_params() {
    assert_eq!(OpenState::from_param("all"), Ok(OpenState::All));
    assert_eq!(OpenState::from_param("open"), Ok(OpenState::Open));
    assert_eq!(OpenState::from_param("closed"), Ok(OpenState::Closed));
    assert_eq!(OpenState::from_param("Open"), Err(OpenStateError::InvalidOpenState));
    assert_eq!(OpenState::Closed.to_search_param(), "+is:closed");
    assert_eq!(OpenState::All.to_search_param(), "");
}

#[test]
fn repository_counts() {
    let p = payload(
        r#"{"subscribers_count":12,"forks_count":3456,"stargazers_count":78901,"followers":5,"total_count":2}"#,
    );
    let b = watchers(&p, req("r.txt"));
    assert_eq!(b.scield.render(&b.value), "Watchers :: 12");
    let b = forks(&p, req("r.txt"));
    assert_eq!(b.scield.render(&b.value), "Forks :: 3k");
    let b = stars(&p, req("r.txt"));
    assert_eq!(b.scield.render(&b.value), "Stars :: 78k");
    let b = followers(&p, req("u.txt"));
    assert_eq!(b.scield.render(&b.value), "Followers :: 5");
    let b = issues(&p, req("r.txt"));
    assert_eq!(b.scield.render(&b.value), "Issues :: 2");
    let b = github::pull_requests(&p, req("r.png"));
    assert_eq!(b.scield.render(&b.value), "Pull Requests :: 2");
    assert_eq!(b.filetype, SupportedFiletype::Png);
}

#[test]
fn latest_release_tag() {
    let b = latest_release(&payload(r#"{"tag_name":"v1.2.3"}"#), req("r.svg"));
    assert_eq!(b.scield.render(&b.value), "Release :: v1.2.3");
}

#[test]
fn workflow_states() {
    assert_eq!(WorkflowState::from_str("success"), WorkflowState::Passing);
    assert_eq!(WorkflowState::from_str("failure"), WorkflowState::Failing);
    assert_eq!(WorkflowState::from_str("cancelled"), WorkflowState::Unknown);
    assert_eq!(WorkflowState::Failing.to_string(), "Failing");
    let b = workflow(&payload(r#"{"total_count":0,"workflow_runs":[]}"#), req("main.svg"));
    assert_eq!(b.scield.render(&b.value), "Build :: Unknown");
    let b = workflow(
        &payload(r#"{"total_count":4,"workflow_runs":[{"conclusion":"success"}]}"#),
        req("main.svg"),
    );
    assert_eq!(b.scield.render(&b.value), "Build :: Passing");
    let b = workflow(
        &payload(r#"{"total_count":4,"workflow_runs":[{"conclusion":"failure"}]}"#),
        req("main.svg"),
    );
    assert_eq!(b.scield.render(&b.value), "Build :: Failing");
    let b = workflow(&payload(r#"{"message":"Not Found"}"#), req("main.svg"));
    assert_eq!(b.scield.render(&b.value), "Build :: N/A");
}

#[test]
fn family_routes() {
    assert_eq!(crates::routes().len(), 3);
    assert_eq!(github::routes().len(), 8);
    assert_eq!(licenses::routes(), vec!["/<license>"]);
    assert_eq!(codestyles::routes(), vec!["/python/<codestyle>"]);
    assert_eq!(crates::routes()[0], "/downloads/<crate_name>");
}
