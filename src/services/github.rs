//! Badges about GitHub repositories and users.

use vstd::prelude::*;
use vstd::string::*;
use crate::json::{int_at, int_field, str_at, str_field};
use crate::scieldas::{Scield, ScieldRequest, TextScield};
use crate::text::same_text;
use serde_json::Value;

verus! {

/// Base of the GitHub REST API.
pub const GITHUB_API_URL: &'static str = "https://api.github.com";

/// The badge paths of this family, below its mount point.
pub fn routes() -> (r: Vec<&'static str>)
    ensures
        r@ == seq![
            "/watchers/<owner>/<repo>",
            "/forks/<owner>/<repo>",
            "/stars/<owner>/<repo>",
            "/followers/<user>",
            "/latest_release/<owner>/<repo>",
            "/issues/<state>/<owner>/<repo>",
            "/pull_requests/<state>/<owner>/<repo>",
            "/workflow/<owner>/<repo>/<workflow>/<branch>",
        ],
{
    let mut r = Vec::new();
    r.push("/watchers/<owner>/<repo>");
    r.push("/forks/<owner>/<repo>");
    r.push("/stars/<owner>/<repo>");
    r.push("/followers/<user>");
    r.push("/latest_release/<owner>/<repo>");
    r.push("/issues/<state>/<owner>/<repo>");
    r.push("/pull_requests/<state>/<owner>/<repo>");
    r.push("/workflow/<owner>/<repo>/<workflow>/<branch>");
    r
}

/// Which issues or pull requests a count takes in.
#[derive(Clone, Copy, Debug, PartialEq, Eq, Structural)]
pub enum OpenState {
    All,
    Open,
    Closed,
}

/// A path segment that names no `OpenState`.
#[derive(Clone, Copy, Debug, PartialEq, Eq, Structural)]
pub enum OpenStateError {
    InvalidOpenState,
}

impl OpenState {
    pub open spec fn search_param(&self) -> Seq<char> {
        match self {
            OpenState::All => ""@,
            OpenState::Open => "+is:open"@,
            OpenState::Closed => "+is:closed"@,
        }
    }

    /// The search qualifier that restricts a search to this state.
    pub fn to_search_param(&self) -> (r: &'static str)
        ensures
            r@ == self.search_param(),
    {
        match self {
            OpenState::All => "",
            OpenState::Open => "+is:open",
            OpenState::Closed => "+is:closed",
        }
    }

    /// Reads "all", "open" or "closed".
    pub fn from_param(param: &str) -> (r: Result<OpenState, OpenStateError>)
        ensures
            r == (if param@ == "all"@ {
                Ok(OpenState::All)
            } else if param@ == "open"@ {
                Ok(OpenState::Open)
            } else if param@ == "closed"@ {
                Ok(OpenState::Closed)
            } else {
                Err(OpenStateError::InvalidOpenState)
            }),
    {
        if same_text(param, "all") {
            Ok(OpenState::All)
        } else if same_text(param, "open") {
            Ok(OpenState::Open)
        } else if same_text(param, "closed") {
            Ok(OpenState::Closed)
        } else {
            Err(OpenStateError::InvalidOpenState)
        }
    }
}

/// The outcome of a workflow's latest completed run.
#[derive(Clone, Copy, Debug, PartialEq, Eq, Structural)]
pub enum WorkflowState {
    Passing,
    Failing,
    Unknown,
}

impl WorkflowState {
    pub open spec fn of_conclusion(s: Seq<char>) -> WorkflowState {
        if s == "success"@ {
            WorkflowState::Passing
        } else if s == "failure"@ {
            WorkflowState::Failing
        } else {
            WorkflowState::Unknown
        }
    }

    pub open spec fn label(&self) -> Seq<char> {
        match self {
            WorkflowState::Passing => "Passing"@,
            WorkflowState::Failing => "Failing"@,
            WorkflowState::Unknown => "Unknown"@,
        }
    }

    /// Reads a run's conclusion: "success" passes, "failure" fails, and
    /// anything else is unknown.
    pub fn from_str(s: &str) -> (r: WorkflowState)
        ensures
            r == WorkflowState::of_conclusion(s@),
    {
        if same_text(s, "success") {
            WorkflowState::Passing
        } else if same_text(s, "failure") {
            WorkflowState::Failing
        } else {
            WorkflowState::Unknown
        }
    }

    /// The word shown for this state.
    pub fn to_string(&self) -> (r: String)
        ensures
            r@ == self.label(),
    {
        match self {
            WorkflowState::Passing => String::from_str("Passing"),
            WorkflowState::Failing => String::from_str("Failing"),
            WorkflowState::Unknown => String::from_str("Unknown"),
        }
    }
}

/// The API resource of a repository.
pub fn repo_url(owner: &str, repo: &str) -> (r: String)
    ensures
        r@ == GITHUB_API_URL@ + "/repos/"@ + owner@ + "/"@ + repo@,
{
    let mut r = String::from_str(GITHUB_API_URL);
    r.append("/repos/");
    r.append(owner);
    r.append("/");
    r.append(repo);
    r
}

/// The API resource of a user.
pub fn user_url(user: &str) -> (r: String)
    ensures
        r@ == GITHUB_API_URL@ + "/users/"@ + user@,
{
    let mut r = String::from_str(GITHUB_API_URL);
    r.append("/users/");
    r.append(user);
    r
}

/// The API resource of a repository's latest release.
pub fn latest_release_url(owner: &str, repo: &str) -> (r: String)
    ensures
        r@ == GITHUB_API_URL@ + "/repos/"@ + owner@ + "/"@ + repo@ + "/releases/latest"@,
{
    let mut r = repo_url(owner, repo);
    r.append("/releases/latest");
    r
}

/// The search for a repository's items of kind `kind` ("issue" or "pr") in
/// state `state`.
pub fn search_url(kind: &str, state: OpenState, owner: &str, repo: &str) -> (r: String)
    ensures
        r@ == GITHUB_API_URL@ + "/search/issues?q=repo:"@ + owner@ + "/"@ + repo@ + "+is:"@
            + kind@ + state.search_param(),
{
    let mut r = String::from_str(GITHUB_API_URL);
    r.append("/search/issues?q=repo:");
    r.append(owner);
    r.append("/");
    r.append(repo);
    r.append("+is:");
    r.append(kind);
    r.append(state.to_search_param());
    r
}

/// The search for a repository's issues in state `state`.
pub fn issues_url(state: OpenState, owner: &str, repo: &str) -> (r: String)
    ensures
        r@ == GITHUB_API_URL@ + "/search/issues?q=repo:"@ + owner@ + "/"@ + repo@ + "+is:"@
            + "issue"@ + state.search_param(),
{
    search_url("issue", state, owner, repo)
}

/// The search for a repository's pull requests in state `state`.
pub fn pull_requests_url(state: OpenState, owner: &str, repo: &str) -> (r: String)
    ensures
        r@ == GITHUB_API_URL@ + "/search/issues?q=repo:"@ + owner@ + "/"@ + repo@ + "+is:"@
            + "pr"@ + state.search_param(),
{
    search_url("pr", state, owner, repo)
}

/// The latest completed run of a workflow on a branch.
pub fn workflow_url(owner: &str, repo: &str, workflow: &str, branch: &str) -> (r: String)
    ensures
        r@ == GITHUB_API_URL@ + "/repos/"@ + owner@ + "/"@ + repo@ + "/actions/workflows/"@
            + workflow@ + "/runs?branch="@ + branch@ + "&per_page=1&status=completed"@,
{
    let mut r = repo_url(owner, repo);
    r.append("/actions/workflows/");
    r.append(workflow);
    r.append("/runs?branch=");
    r.append(branch);
    r.append("&per_page=1&status=completed");
    r
}

/// A badge showing the count at `pointer` in `payload` after `prefix`.
pub open spec fn count_badge(
    r: Scield<Option<i64>, TextScield>,
    prefix: Seq<char>,
    payload: Option<Value>,
    pointer: Seq<char>,
    request: ScieldRequest,
) -> bool {
    &&& r.scield.prefix@ == prefix
    &&& r.scield.suffix is None
    &&& r.value == int_at(payload, pointer)
    &&& r.filetype == request.filetype
}

fn count_scield(
    prefix: &'static str,
    payload: &Option<Value>,
    pointer: &str,
    request: ScieldRequest,
) -> (r: Scield<Option<i64>, TextScield>)
    ensures
        count_badge(r, prefix@, *payload, pointer@, request),
{
    Scield {
        scield: TextScield { prefix, suffix: None },
        value: int_field(payload, pointer),
        filetype: request.filetype,
    }
}

/// The watcher count of a repository, from the payload of its `repo_url`.
pub fn watchers(payload: &Option<Value>, repo: ScieldRequest) -> (r: Scield<Option<i64>, TextScield>)
    ensures
        count_badge(r, "Watchers"@, *payload, "/subscribers_count"@, repo),
{
    count_scield("Watchers", payload, "/subscribers_count", repo)
}

/// The fork count of a repository, from the payload of its `repo_url`.
pub fn forks(payload: &Option<Value>, repo: ScieldRequest) -> (r: Scield<Option<i64>, TextScield>)
    ensures
        count_badge(r, "Forks"@, *payload, "/forks_count"@, repo),
{
    count_scield("Forks", payload, "/forks_count", repo)
}

/// The star count of a repository, from the payload of its `repo_url`.
pub fn stars(payload: &Option<Value>, repo: ScieldRequest) -> (r: Scield<Option<i64>, TextScield>)
    ensures
        count_badge(r, "Stars"@, *payload, "/stargazers_count"@, repo),
{
    count_scield("Stars", payload, "/stargazers_count", repo)
}

/// The follower count of a user, from the payload of their `user_url`.
pub fn followers(payload: &Option<Value>, user: ScieldRequest) -> (r: Scield<Option<i64>, TextScield>)
    ensures
        count_badge(r, "Followers"@, *payload, "/followers"@, user),
{
    count_scield("Followers", payload, "/followers", user)
}

/// The issue count of a repository, from the payload of its `issues_url`.
pub fn issues(payload: &Option<Value>, repo: ScieldRequest) -> (r: Scield<Option<i64>, TextScield>)
    ensures
        count_badge(r, "Issues"@, *payload, "/total_count"@, repo),
{
    count_scield("Issues", payload, "/total_count", repo)
}

/// The pull-request count of a repository, from the payload of its
/// `pull_requests_url`.
pub fn pull_requests(payload: &Option<Value>, repo: ScieldRequest) -> (r: Scield<
    Option<i64>,
    TextScield,
>)
    ensures
        count_badge(r, "Pull Requests"@, *payload, "/total_count"@, repo),
{
    count_scield("Pull Requests", payload, "/total_count", repo)
}

/// The tag of a repository's latest release, from the payload of its
/// `latest_release_url`.
pub fn latest_release(payload: &Option<Value>, repo: ScieldRequest) -> (r: Scield<
    Option<String>,
    TextScield,
>)
    ensures
        r.scield.prefix@ == "Release"@,
        r.scield.suffix is None,
        match r.value {
            Some(v) => str_at(*payload, "/tag_name"@) == Some(v@),
            None => str_at(*payload, "/tag_name"@) is None,
        },
        r.filetype == repo.filetype,
{
    Scield {
        scield: TextScield { prefix: "Release", suffix: None },
        value: str_field(payload, "/tag_name"),
        filetype: repo.filetype,
    }
}

/// The conclusion of the latest run listed in a workflow-runs payload:
/// "unknown" where none is listed, nothing where the payload lacks it.
pub open spec fn conclusion_of(payload: Option<Value>) -> Option<Seq<char>> {
    match int_at(payload, "/total_count"@) {
        Some(n) => if n == 0 {
            Some("unknown"@)
        } else {
            str_at(payload, "/workflow_runs/0/conclusion"@)
        },
        None => None,
    }
}

/// The state of a workflow on a branch, from the payload of its
/// `workflow_url`.
pub fn workflow(payload: &Option<Value>, branch: ScieldRequest) -> (r: Scield<
    Option<String>,
    TextScield,
>)
    ensures
        r.scield.prefix@ == "Build"@,
        r.scield.suffix is None,
        match conclusion_of(*payload) {
            Some(c) => r.value is Some && r.value->Some_0@ == WorkflowState::of_conclusion(c).label(),
            None => r.value is None,
        },
        r.filetype == branch.filetype,
{
    let conclusion = match int_field(payload, "/total_count") {
        Some(n) => if n == 0 {
            Some(String::from_str("unknown"))
        } else {
            str_field(payload, "/workflow_runs/0/conclusion")
        },
        None => None,
    };
    let value = match conclusion {
        Some(c) => Some(WorkflowState::from_str(c.as_str()).to_string()),
        None => None,
    };
    Scield { scield: TextScield { prefix: "Build", suffix: None }, value, filetype: branch.filetype }
}

} // verus!
