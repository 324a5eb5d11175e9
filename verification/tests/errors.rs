use issue::error::{classify_status, AppError, IssueError};
use issue::jira::issue_name;

#[test]
fn issue_name_is_the_projects_issues_path() {
    assert_eq!(issue_name("ABC", "ABC-1"), "projects/ABC/issues/ABC-1");
    assert_eq!(issue_name("", ""), "projects//issues/");
}

#[test]
fn statuses_are_classified_by_kind() {
    assert_eq!(classify_status(401), IssueError::Unauthorized);
    assert_eq!(classify_status(403), IssueError::Unauthorized);
    assert_eq!(classify_status(404), IssueError::NotFound);
    assert_eq!(classify_status(500), IssueError::Fault);
    assert_eq!(classify_status(418), IssueError::Fault);
}

#[test]
fn issue_errors_map_one_to_one_onto_app_errors() {
    assert_eq!(AppError::from(IssueError::BadRequest), AppError::BadRequest);
    assert_eq!(AppError::from(IssueError::Unauthorized), AppError::Unauthorized);
    assert_eq!(AppError::from(IssueError::NotFound), AppError::NotFound);
    assert_eq!(AppError::from(IssueError::Fault), AppError::Internal);
}

#[test]
fn app_errors_carry_their_http_status() {
    assert_eq!(AppError::BadRequest.status(), 400);
    assert_eq!(AppError::Unauthorized.status(), 401);
    assert_eq!(AppError::NotFound.status(), 404);
    assert_eq!(AppError::Internal.status(), 500);
}

#[test]
fn app_errors_carry_a_generic_message() {
    assert_eq!(AppError::BadRequest.message(), "Bad Request");
    assert_eq!(AppError::Unauthorized.message(), "Unauthorized");
    assert_eq!(AppError::NotFound.message(), "Not Found");
    assert_eq!(AppError::Internal.message(), "Internal Server Error");
}
