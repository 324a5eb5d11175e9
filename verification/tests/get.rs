use issue::error::IssueError;
use issue::jira::{BackendOutcome, Credentials, HttpMethod, IssueService, JiraIssueService};
use issue::model::{Assignee, GetFields, GetResponse, IssueType, Project};

fn service() -> IssueService {
    IssueService::Jira(JiraIssueService::new(
        "https://x".to_string(),
        Credentials::Basic("user".to_string(), "secret".to_string()),
    ))
}

fn backend_issue(labels: Vec<String>) -> GetResponse {
    GetResponse {
        id: "10001".to_string(),
        key: "ABC-1".to_string(),
        url: "https://x/issue/10001".to_string(),
        fields: GetFields {
            project: Project { key: "ABC".to_string() },
            issuetype: IssueType { name: "Task".to_string() },
            summary: "Fix bug".to_string(),
            description: "desc".to_string(),
            assignee: Assignee {
                key: "https://x/user/jdoe".to_string(),
                name: "jdoe".to_string(),
                email_address: "jdoe@example.com".to_string(),
                display_name: "J. Doe".to_string(),
            },
            labels,
        },
    }
}

#[test]
fn get_plans_get_with_the_issue_id_in_the_url() {
    let call = service().get_issue_call("ABC-1");
    assert_eq!(call.method, HttpMethod::Get);
    assert_eq!(call.url, "https://x/rest/api/latest/issue/ABC-1");
    assert!(call.payload.is_none());
}

#[test]
fn get_attaches_the_service_credentials() {
    let call = service().get_issue_call("ABC-1");
    let Credentials::Basic(user, pass) = call.credentials;
    assert_eq!(user, "user");
    assert_eq!(pass, "secret");
}

#[test]
fn get_scenario_fix_bug() {
    let outcome = BackendOutcome::Success(backend_issue(vec!["p1".to_string()]));
    let issue = service()
        .get_issue_result("ABC", outcome)
        .expect("a successful backend answer yields an issue");
    assert_eq!(issue.name, "projects/ABC/issues/ABC-1");
    assert_eq!(issue.title, "Fix bug");
    assert_eq!(issue.body, Some("desc".to_string()));
    assert_eq!(issue.owner, None);
    assert_eq!(issue.assignee, Some("jdoe".to_string()));
    assert_eq!(issue.labels, Some(vec!["p1".to_string()]));
}

#[test]
fn get_never_populates_the_owner() {
    // Every field of the backend response is populated, yet no backend
    // field maps to `owner`.
    let outcome = BackendOutcome::Success(backend_issue(vec![
        "a".to_string(),
        "b".to_string(),
    ]));
    let issue = service()
        .get_issue_result("ABC", outcome)
        .expect("a successful backend answer yields an issue");
    assert_eq!(issue.owner, None);
}

#[test]
fn get_twice_with_unchanged_backend_is_idempotent() {
    let svc = service();
    let first = svc
        .get_issue_result(
            "ABC",
            BackendOutcome::Success(backend_issue(vec!["p1".to_string()])),
        )
        .expect("a successful backend answer yields an issue");
    let second = svc
        .get_issue_result(
            "ABC",
            BackendOutcome::Success(backend_issue(vec!["p1".to_string()])),
        )
        .expect("a successful backend answer yields an issue");
    assert_eq!(first, second);
}

#[test]
fn get_preserves_the_label_order() {
    let labels = vec![
        "zeta".to_string(),
        "alpha".to_string(),
        "mid".to_string(),
    ];
    let issue = service()
        .get_issue_result("ABC", BackendOutcome::Success(backend_issue(labels.clone())))
        .expect("a successful backend answer yields an issue");
    assert_eq!(issue.labels, Some(labels));
}

#[test]
fn get_with_no_labels_yields_an_empty_sequence() {
    let issue = service()
        .get_issue_result("ABC", BackendOutcome::Success(backend_issue(Vec::new())))
        .expect("a successful backend answer yields an issue");
    assert_eq!(issue.labels, Some(Vec::new()));
}

#[test]
fn get_unauthorized_status_surfaces_unauthorized() {
    let svc = service();
    let r = svc.get_issue_result("ABC", BackendOutcome::HttpStatus(401));
    assert!(matches!(r, Err(IssueError::Unauthorized)));
    let r = svc.get_issue_result("ABC", BackendOutcome::HttpStatus(403));
    assert!(matches!(r, Err(IssueError::Unauthorized)));
}

#[test]
fn get_missing_issue_surfaces_not_found() {
    let r = service().get_issue_result("ABC", BackendOutcome::HttpStatus(404));
    assert!(matches!(r, Err(IssueError::NotFound)));
}

#[test]
fn get_unclassified_failures_surface_a_fault() {
    let svc = service();
    let r = svc.get_issue_result("ABC", BackendOutcome::HttpStatus(502));
    assert!(matches!(r, Err(IssueError::Fault)));
    let r = svc.get_issue_result("ABC", BackendOutcome::TransportFailed);
    assert!(matches!(r, Err(IssueError::Fault)));
    let r = svc.get_issue_result("ABC", BackendOutcome::DecodeFailed);
    assert!(matches!(r, Err(IssueError::Fault)));
}
