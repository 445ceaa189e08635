//! The task link resolver: authentication gate, project resolution, title
//! match over the upstream task list, link construction, and the mapping of
//! outcomes to HTTP status codes.

use vstd::prelude::*;
use vstd::string::StringExecFns;
use crate::digits::decimal_digits;
use crate::digits::decimal_string;
use crate::registry::Registry;
use crate::registry::spec_lookup;
use crate::text::is_prefix_of;
use crate::text::str_starts_with;

verus! {

/// Query parameters of a resolve request.
pub struct Params {
    pub task_id: u32,
    pub project_name: String,
}

/// One task record from the upstream task list.
pub struct Task {
    pub company_task_id: u32,
    pub title: String,
}

/// The deep link returned on success.
#[derive(Debug)]
pub struct Link {
    pub url: String,
}

/// Why a request was not answered with a link. The kinds stay distinct
/// internally; callers only see the status code each one maps to.
#[derive(Clone, Copy, Debug, PartialEq, Eq, Structural)]
pub enum ResolveError {
    AuthFailure,
    ProjectNotFound,
    UpstreamFailure,
    TaskNotFound,
}

/// What to do with a request once the local checks have run: reject it
/// outright, or fetch the task list of the given project identifier.
#[derive(Clone, Copy, Debug, PartialEq, Eq, Structural)]
pub enum Plan {
    Reject(ResolveError),
    Fetch(u32),
}

/// A presented bearer token authenticates iff it is present and equals the
/// configured token, byte for byte.
pub open spec fn auth_ok(presented: Option<&str>, auth_token: Seq<char>) -> bool {
    match presented {
        Some(t) => t@ == auth_token,
        None => false,
    }
}

/// The title prefix a task must carry to match `task_id`: the decimal form
/// of `task_id` followed by a single space.
pub open spec fn title_selected(task_id: u32, title: Seq<char>) -> bool {
    is_prefix_of(decimal_digits(task_id as nat).push(' '), title)
}

/// The deep-link URL for a matched task's own identifier.
pub open spec fn link_chars(company_task_id: u32) -> Seq<char> {
    "https://app.forecast.it/T"@ + decimal_digits(company_task_id as nat)
}

/// Whether `title` starts with the decimal form of `task_id` followed by one
/// space: `42` matches `"42 Fix bug"`, but neither `"421 Other"` nor
/// `"42Fix"`.
pub fn title_matches(task_id: u32, title: &str) -> (r: bool)
    ensures
        r == title_selected(task_id, title@),
{
    let mut p = decimal_string(task_id);
    p.append(" ");
    proof {
        reveal_strlit(" ");
        assert(p@ =~= decimal_digits(task_id as nat).push(' '));
    }
    str_starts_with(title, p.as_str())
}

/// Index of the first task whose title matches `task_id`, scanning in
/// upstream response order; `None` when no title matches.
pub fn find_task(tasks: &Vec<Task>, task_id: u32) -> (r: Option<usize>)
    ensures
        match r {
            Some(i) => i < tasks@.len() && title_selected(task_id, tasks@[i as int].title@)
                && (forall|j: int| 0 <= j < i ==> !title_selected(task_id, tasks@[j].title@)),
            None => forall|j: int| 0 <= j < tasks@.len()
                ==> !title_selected(task_id, tasks@[j].title@),
        },
{
    let n = tasks.len();
    let mut i: usize = 0;
    while i < n
        invariant
            i <= n,
            n == tasks@.len(),
            forall|j: int| 0 <= j < i ==> !title_selected(task_id, tasks@[j].title@),
        decreases n - i,
    {
        if title_matches(task_id, tasks[i].title.as_str()) {
            return Some(i);
        }
        i += 1;
    }
    None
}

/// Builds the deep link for a matched task's own identifier.
pub fn build_link(company_task_id: u32) -> (l: Link)
    ensures
        l.url@ == link_chars(company_task_id),
{
    let base = String::from_str("https://app.forecast.it/T");
    let url = base.concat(decimal_string(company_task_id).as_str());
    Link { url }
}

/// The URL the task list of a project is fetched from.
pub open spec fn upstream_url_chars(project_id: u32) -> Seq<char> {
    "https://api.forecast.it/api/v3/projects/"@ + decimal_digits(project_id as nat) + "/tasks"@
}

/// Builds the upstream endpoint URL for a project identifier.
pub fn upstream_url(project_id: u32) -> (u: String)
    ensures
        u@ == upstream_url_chars(project_id),
{
    let base = String::from_str("https://api.forecast.it/api/v3/projects/");
    let u = base.concat(decimal_string(project_id).as_str()).concat("/tasks");
    proof {
        assert(u@ =~= upstream_url_chars(project_id));
    }
    u
}

/// The local checks that run before any upstream call: the auth gate first,
/// then the registry lookup. A missing or mismatched token is rejected
/// before the project name is even considered, so no fetch is ever planned
/// for an unauthenticated request.
pub fn plan_request(registry: &Registry, auth_token: &str, presented: Option<&str>, params: &Params) -> (p: Plan)
    ensures
        !auth_ok(presented, auth_token@) ==> p == Plan::Reject(ResolveError::AuthFailure),
        auth_ok(presented, auth_token@) ==> p == (match spec_lookup(registry@, params.project_name@) {
            Some(pid) => Plan::Fetch(pid),
            None => Plan::Reject(ResolveError::ProjectNotFound),
        }),
{
    let authed = match presented {
        Some(t) => {
            let a = String::from_str(t);
            let b = String::from_str(auth_token);
            a == b
        },
        None => false,
    };
    if !authed {
        return Plan::Reject(ResolveError::AuthFailure);
    }
    match registry.lookup(params.project_name.as_str()) {
        Some(pid) => Plan::Fetch(pid),
        None => Plan::Reject(ResolveError::ProjectNotFound),
    }
}

/// Turns the outcome of the upstream fetch into the response: any upstream
/// failure (`None`) is an `UpstreamFailure`; otherwise the first task whose
/// title matches `task_id` yields its deep link, and `TaskNotFound` is
/// returned when no title matches.
pub fn complete(task_id: u32, upstream: Option<Vec<Task>>) -> (r: Result<Link, ResolveError>)
    ensures
        match upstream {
            None => r == Err::<Link, ResolveError>(ResolveError::UpstreamFailure),
            Some(tasks) => match r {
                Ok(link) => exists|i: int| 0 <= i < tasks@.len()
                    && #[trigger] title_selected(task_id, tasks@[i].title@)
                    && (forall|j: int| 0 <= j < i ==> !title_selected(task_id, tasks@[j].title@))
                    && link.url@ == link_chars(tasks@[i].company_task_id),
                Err(e) => e == ResolveError::TaskNotFound
                    && (forall|j: int| 0 <= j < tasks@.len()
                        ==> !title_selected(task_id, tasks@[j].title@)),
            },
        },
{
    match upstream {
        None => Err(ResolveError::UpstreamFailure),
        Some(tasks) => match find_task(&tasks, task_id) {
            Some(i) => Ok(build_link(tasks[i].company_task_id)),
            None => Err(ResolveError::TaskNotFound),
        },
    }
}

/// The status code a resolve error is reported as.
pub open spec fn spec_status(e: ResolveError) -> u16 {
    match e {
        ResolveError::AuthFailure => 401,
        _ => 404,
    }
}

/// Maps an error to its HTTP status: authentication failures are surfaced
/// as 401; every other kind is collapsed into an undifferentiated 404.
pub fn status_of(e: &ResolveError) -> (s: u16)
    ensures
        s == spec_status(*e),
{
    match e {
        ResolveError::AuthFailure => 401,
        _ => 404,
    }
}

} // verus!
