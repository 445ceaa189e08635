use task_link::digits::decimal_string;
use task_link::registry::fixed_registry;
use task_link::registry::Registry;
use task_link::resolver::build_link;
use task_link::resolver::complete;
use task_link::resolver::find_task;
use task_link::resolver::plan_request;
use task_link::resolver::status_of;
use task_link::resolver::title_matches;
use task_link::resolver::upstream_url;
use task_link::resolver::Params;
use task_link::resolver::Plan;
use task_link::resolver::ResolveError;
use task_link::resolver::Task;
use task_link::text::str_starts_with;

fn alpha_registry() -> Registry {
    Registry::new(vec![(String::from("Alpha"), 100u32)])
}

fn alpha_params(project_name: &str) -> Params {
    Params { task_id: 42, project_name: String::from(project_name) }
}

#[test]
fn decimal_of_small_numbers() {
    assert_eq!(decimal_string(0), "0");
    assert_eq!(decimal_string(7), "7");
    assert_eq!(decimal_string(10), "10");
    assert_eq!(decimal_string(42), "42");
}

#[test]
fn decimal_of_large_numbers() {
    assert_eq!(decimal_string(407834), "407834");
    assert_eq!(decimal_string(4294967295), "4294967295");
}

#[test]
fn starts_with_basic() {
    assert!(str_starts_with("42 Fix bug", "42 "));
    assert!(str_starts_with("abc", ""));
    assert!(str_starts_with("abc", "abc"));
    assert!(!str_starts_with("ab", "abc"));
    assert!(!str_starts_with("42Fix", "42 "));
}

#[test]
fn title_match_requires_space_after_id() {
    assert!(title_matches(42, "42 Fix bug"));
    assert!(!title_matches(42, "421 Other"));
    assert!(!title_matches(42, "42Fix"));
    assert!(!title_matches(42, "42"));
    assert!(title_matches(42, "42 "));
}

#[test]
fn fixed_registry_resolves_each_name() {
    let reg = fixed_registry();
    assert_eq!(reg.lookup("Andel Energi - Adapt\\Andelenergi.dk"), Some(407834));
    assert_eq!(reg.lookup("Andel Energi - Adapt\\Selvbetjening"), Some(404023));
    assert_eq!(reg.lookup("Andel Energi - Adapt"), Some(385854));
}

#[test]
fn fixed_registry_rejects_unknown_names() {
    let reg = fixed_registry();
    assert_eq!(reg.lookup("Andel Energi"), None);
    assert_eq!(reg.lookup("andel energi - adapt"), None);
    assert_eq!(reg.lookup(""), None);
}

#[test]
fn lookup_takes_earliest_pair() {
    let reg = Registry::new(vec![
        (String::from("A"), 1u32),
        (String::from("B"), 2u32),
        (String::from("A"), 3u32),
    ]);
    assert_eq!(reg.lookup("A"), Some(1));
    assert_eq!(reg.lookup("B"), Some(2));
}

#[test]
fn find_task_picks_first_match() {
    let tasks = vec![
        Task { company_task_id: 1, title: String::from("7 Other") },
        Task { company_task_id: 2, title: String::from("42 First hit") },
        Task { company_task_id: 3, title: String::from("42 Second hit") },
    ];
    assert_eq!(find_task(&tasks, 42), Some(1));
    assert_eq!(find_task(&tasks, 7), Some(0));
    assert_eq!(find_task(&tasks, 421), None);
}

#[test]
fn build_link_uses_company_task_id() {
    assert_eq!(build_link(9001).url, "https://app.forecast.it/T9001");
    assert_eq!(build_link(0).url, "https://app.forecast.it/T0");
}

#[test]
fn upstream_url_embeds_project_id() {
    assert_eq!(
        upstream_url(407834),
        "https://api.forecast.it/api/v3/projects/407834/tasks"
    );
}

#[test]
fn resolves_matching_task() {
    let reg = alpha_registry();
    let params = alpha_params("Alpha");
    let plan = plan_request(&reg, "secret", Some("secret"), &params);
    assert_eq!(plan, Plan::Fetch(100));
    let tasks = vec![Task { company_task_id: 9001, title: String::from("42 Fix login") }];
    let r = complete(params.task_id, Some(tasks));
    assert_eq!(r.unwrap().url, "https://app.forecast.it/T9001");
}

#[test]
fn unknown_project_is_not_found() {
    let reg = alpha_registry();
    let params = alpha_params("Beta");
    let plan = plan_request(&reg, "secret", Some("secret"), &params);
    assert_eq!(plan, Plan::Reject(ResolveError::ProjectNotFound));
    assert_eq!(status_of(&ResolveError::ProjectNotFound), 404);
}

#[test]
fn unmatched_title_is_not_found() {
    let tasks = vec![Task { company_task_id: 1, title: String::from("99 Other") }];
    let r = complete(42, Some(tasks));
    assert_eq!(r.unwrap_err(), ResolveError::TaskNotFound);
    assert_eq!(status_of(&ResolveError::TaskNotFound), 404);
}

#[test]
fn bad_token_is_unauthorized_without_fetch() {
    let reg = alpha_registry();
    let params = alpha_params("Alpha");
    let wrong = plan_request(&reg, "secret", Some("wrong"), &params);
    assert_eq!(wrong, Plan::Reject(ResolveError::AuthFailure));
    let missing = plan_request(&reg, "secret", None, &params);
    assert_eq!(missing, Plan::Reject(ResolveError::AuthFailure));
    assert_eq!(status_of(&ResolveError::AuthFailure), 401);
}

#[test]
fn auth_gate_runs_before_project_lookup() {
    let reg = alpha_registry();
    let params = alpha_params("Beta");
    let plan = plan_request(&reg, "secret", Some("wrong"), &params);
    assert_eq!(plan, Plan::Reject(ResolveError::AuthFailure));
}

#[test]
fn upstream_failure_is_not_found() {
    let r = complete(42, None);
    assert_eq!(r.unwrap_err(), ResolveError::UpstreamFailure);
    assert_eq!(status_of(&ResolveError::UpstreamFailure), 404);
}

#[test]
fn empty_task_list_is_not_found() {
    let r = complete(42, Some(Vec::new()));
    assert_eq!(r.unwrap_err(), ResolveError::TaskNotFound);
}
