//! The issue adapter for a Jira-shaped backend.
//!
//! Each operation makes exactly one outbound HTTP call.  The adapter is
//! split around that call: a *call* method plans it as a plain
//! [`BackendCall`] value (URL, method, credentials, payload), and a
//! *result* method interprets the [`BackendOutcome`] the transport came
//! back with.  Both halves are pure and fully verified; the embedding
//! application only carries the planned call to the wire and reports what
//! happened.  A create whose input lacks a `body` is rejected before any
//! call is planned, so no outbound call is performed for it.

use vstd::prelude::*;
use vstd::string::StringExecFns;
use crate::error::{IssueError, classify_status, spec_classify_status};
use crate::model::{
    Assignee, CreateIssue, CreateIssueView, CreateRequest, CreateRequestView, CreateResponse,
    CreateResponseView, Fields, FieldsView, GetResponse, GetResponseView, Issue, IssueType,
    IssueTypeView, IssueView, Project, ProjectView,
};

verus! {

/// The credentials attached identically to every outbound backend call.
///
/// A single scheme is supported: HTTP Basic authentication with a
/// username/password pair, bound once at construction of the adapter.
pub enum Credentials {
    Basic(String, String),
}

impl Credentials {
    /// The username carried by these credentials.
    pub open spec fn spec_user(self) -> Seq<char> {
        match self {
            Credentials::Basic(user, _) => user@,
        }
    }

    /// The password carried by these credentials.
    pub open spec fn spec_pass(self) -> Seq<char> {
        match self {
            Credentials::Basic(_, pass) => pass@,
        }
    }
}

impl Clone for Credentials {
    fn clone(&self) -> (r: Self)
        ensures
            r == *self,
    {
        match self {
            Credentials::Basic(user, pass) => Credentials::Basic(user.clone(), pass.clone()),
        }
    }
}

/// The HTTP method of a planned backend call.
#[derive(Clone, Copy, Debug, PartialEq, Eq, Structural)]
pub enum HttpMethod {
    Get,
    Post,
}

/// One planned outbound HTTP call against the backend.
///
/// The adapter never performs I/O itself: it hands this value to the
/// transport, which sends it as-is and reports a [`BackendOutcome`].
pub struct BackendCall {
    pub method: HttpMethod,
    pub url: String,
    pub credentials: Credentials,
    pub payload: Option<CreateRequest>,
}

/// The mathematical value of a [`BackendCall`].
pub ghost struct BackendCallView {
    pub method: HttpMethod,
    pub url: Seq<char>,
    pub user: Seq<char>,
    pub pass: Seq<char>,
    pub payload: Option<CreateRequestView>,
}

impl View for BackendCall {
    type V = BackendCallView;

    open spec fn view(&self) -> BackendCallView {
        BackendCallView {
            method: self.method,
            url: self.url@,
            user: self.credentials.spec_user(),
            pass: self.credentials.spec_pass(),
            payload: match self.payload {
                Some(request) => Some(request@),
                None => None,
            },
        }
    }
}

/// What one outbound backend call came back with.
///
/// `Success` carries the decoded response body of a 2xx answer;
/// `HttpStatus` a non-success status; `TransportFailed` a connection
/// breakdown or timeout; `DecodeFailed` a 2xx answer whose body could not
/// be decoded.
#[derive(Debug, PartialEq)]
pub enum BackendOutcome<R> {
    Success(R),
    HttpStatus(u16),
    TransportFailed,
    DecodeFailed,
}

/// The adapter for one Jira-shaped backend: a host and the credentials
/// attached to every call against it, both immutable for its lifetime.
pub struct JiraIssueService {
    pub host: String,
    pub credentials: Credentials,
}

/// An issue backend, selected at construction time.
///
/// The capability set is `create_issue`/`get_issue`, each split into a
/// call-planning and a result-interpretation half.  Exactly one backend
/// kind is implemented; adding another adds a variant without changing
/// callers.
pub enum IssueService {
    Jira(JiraIssueService),
}

/// The resource name of an issue: always derived from the project and the
/// backend-assigned key, never caller-supplied.
pub open spec fn spec_issue_name(project_id: Seq<char>, key: Seq<char>) -> Seq<char> {
    "projects/"@ + project_id + "/issues/"@ + key
}

/// Synthesize the resource name `projects/{project_id}/issues/{key}`.
pub fn issue_name(project_id: &str, key: &str) -> (r: String)
    ensures
        r@ == spec_issue_name(project_id@, key@),
{
    let mut name: String = "projects/".to_owned();
    name.append(project_id);
    name.append("/issues/");
    name.append(key);
    name
}

/// The URL of the backend's create endpoint.
pub open spec fn spec_create_issue_url(host: Seq<char>) -> Seq<char> {
    host + "/rest/api/latest/issue"@
}

/// The URL of the backend's get endpoint for one issue.
pub open spec fn spec_get_issue_url(host: Seq<char>, issue_id: Seq<char>) -> Seq<char> {
    host + "/rest/api/latest/issue/"@ + issue_id
}

/// The payload of a create call: project from the caller, issue type
/// fixed to `"Task"`, summary from the title, description from the body.
pub open spec fn spec_create_request(project_id: Seq<char>, input: CreateIssueView) -> CreateRequestView
    recommends
        input.body is Some,
{
    CreateRequestView {
        fields: FieldsView {
            project: ProjectView { key: project_id },
            issuetype: IssueTypeView { name: "Task"@ },
            summary: input.title,
            description: input.body->0,
        },
    }
}

/// The one outbound call a create performs.
pub open spec fn spec_create_issue_call(
    host: Seq<char>,
    credentials: Credentials,
    project_id: Seq<char>,
    input: CreateIssueView,
) -> BackendCallView
    recommends
        input.body is Some,
{
    BackendCallView {
        method: HttpMethod::Post,
        url: spec_create_issue_url(host),
        user: credentials.spec_user(),
        pass: credentials.spec_pass(),
        payload: Some(spec_create_request(project_id, input)),
    }
}

/// The one outbound call a get performs.
pub open spec fn spec_get_issue_call(
    host: Seq<char>,
    credentials: Credentials,
    issue_id: Seq<char>,
) -> BackendCallView {
    BackendCallView {
        method: HttpMethod::Get,
        url: spec_get_issue_url(host, issue_id),
        user: credentials.spec_user(),
        pass: credentials.spec_pass(),
        payload: None,
    }
}

/// The canonical issue a successful create maps to: the name is derived
/// from the backend-assigned key; every other field echoes the caller's
/// input verbatim (the backend neither returns nor persists them).
pub open spec fn spec_issue_from_create(
    project_id: Seq<char>,
    input: CreateIssueView,
    resp: CreateResponseView,
) -> IssueView {
    IssueView {
        name: spec_issue_name(project_id, resp.key),
        title: input.title,
        body: input.body,
        owner: input.owner,
        assignee: input.assignee,
        labels: input.labels,
    }
}

/// The canonical issue a successful get maps to: the name is derived from
/// the backend key, the title from the summary, the body from the
/// description, the assignee from the assignee's `name`; the labels are
/// taken over as-is; no backend field maps to `owner`, so it is absent.
pub open spec fn spec_issue_from_get(project_id: Seq<char>, resp: GetResponseView) -> IssueView {
    IssueView {
        name: spec_issue_name(project_id, resp.key),
        title: resp.fields.summary,
        body: Some(resp.fields.description),
        owner: None,
        assignee: Some(resp.fields.assignee.name),
        labels: Some(resp.fields.labels),
    }
}

impl JiraIssueService {
    /// An adapter bound to one backend host and one set of credentials.
    pub fn new(host: String, credentials: Credentials) -> (r: Self)
        ensures
            r.host == host,
            r.credentials == credentials,
    {
        JiraIssueService { host, credentials }
    }

    /// Plan the single outbound call of a create.
    ///
    /// An input without a `body` is a contract violation: it is rejected
    /// with `BadRequest` and no call is planned, so none is performed.
    pub fn create_issue_call(&self, project_id: &str, input: &CreateIssue) -> (r: Result<
        BackendCall,
        IssueError,
    >)
        ensures
            r is Err <==> input.body is None,
            r is Err ==> r == Err::<BackendCall, IssueError>(IssueError::BadRequest),
            r matches Ok(call) ==> call@ == spec_create_issue_call(
                self.host@,
                self.credentials,
                project_id@,
                input@,
            ),
    {
        let description = match &input.body {
            Some(body) => body.clone(),
            None => {
                return Err(IssueError::BadRequest);
            },
        };
        let request = CreateRequest {
            fields: Fields {
                project: Project { key: project_id.to_owned() },
                issuetype: IssueType { name: "Task".to_owned() },
                summary: input.title.clone(),
                description,
            },
        };
        let mut url: String = self.host.clone();
        url.append("/rest/api/latest/issue");
        Ok(
            BackendCall {
                method: HttpMethod::Post,
                url,
                credentials: self.credentials.clone(),
                payload: Some(request),
            },
        )
    }

    /// Interpret what the backend came back with on a create.
    pub fn create_issue_result(
        &self,
        project_id: &str,
        input: CreateIssue,
        outcome: BackendOutcome<CreateResponse>,
    ) -> (r: Result<Issue, IssueError>)
        ensures
            r is Ok <==> outcome is Success,
            outcome matches BackendOutcome::Success(resp) ==> r matches Ok(issue) && issue@
                == spec_issue_from_create(project_id@, input@, resp@),
            outcome matches BackendOutcome::HttpStatus(status) ==> r == Err::<Issue, IssueError>(
                spec_classify_status(status),
            ),
            outcome is TransportFailed || outcome is DecodeFailed ==> r == Err::<
                Issue,
                IssueError,
            >(IssueError::Fault),
    {
        match outcome {
            BackendOutcome::Success(resp) => {
                let name = issue_name(project_id, resp.key.as_str());
                Ok(
                    Issue {
                        name,
                        title: input.title,
                        body: input.body,
                        owner: input.owner,
                        assignee: input.assignee,
                        labels: input.labels,
                    },
                )
            },
            BackendOutcome::HttpStatus(status) => Err(classify_status(status)),
            BackendOutcome::TransportFailed => Err(IssueError::Fault),
            BackendOutcome::DecodeFailed => Err(IssueError::Fault),
        }
    }

    /// Plan the single outbound call of a get.
    pub fn get_issue_call(&self, issue_id: &str) -> (r: BackendCall)
        ensures
            r@ == spec_get_issue_call(self.host@, self.credentials, issue_id@),
    {
        let mut url: String = self.host.clone();
        url.append("/rest/api/latest/issue/");
        url.append(issue_id);
        BackendCall {
            method: HttpMethod::Get,
            url,
            credentials: self.credentials.clone(),
            payload: None,
        }
    }

    /// Interpret what the backend came back with on a get.
    pub fn get_issue_result(&self, project_id: &str, outcome: BackendOutcome<GetResponse>) -> (r:
        Result<Issue, IssueError>)
        ensures
            r is Ok <==> outcome is Success,
            outcome matches BackendOutcome::Success(resp) ==> r matches Ok(issue) && issue@
                == spec_issue_from_get(project_id@, resp@),
            outcome matches BackendOutcome::HttpStatus(status) ==> r == Err::<Issue, IssueError>(
                spec_classify_status(status),
            ),
            outcome is TransportFailed || outcome is DecodeFailed ==> r == Err::<
                Issue,
                IssueError,
            >(IssueError::Fault),
    {
        match outcome {
            BackendOutcome::Success(resp) => {
                let name = issue_name(project_id, resp.key.as_str());
                Ok(
                    Issue {
                        name,
                        title: resp.fields.summary,
                        body: Some(resp.fields.description),
                        owner: None,
                        assignee: Some(resp.fields.assignee.name),
                        labels: Some(resp.fields.labels),
                    },
                )
            },
            BackendOutcome::HttpStatus(status) => Err(classify_status(status)),
            BackendOutcome::TransportFailed => Err(IssueError::Fault),
            BackendOutcome::DecodeFailed => Err(IssueError::Fault),
        }
    }
}

impl IssueService {
    /// The host of the selected backend.
    pub open spec fn spec_host(self) -> Seq<char> {
        match self {
            IssueService::Jira(svc) => svc.host@,
        }
    }

    /// The credentials of the selected backend.
    pub open spec fn spec_credentials(self) -> Credentials {
        match self {
            IssueService::Jira(svc) => svc.credentials,
        }
    }

    /// Plan the single outbound call of a create against the selected
    /// backend; an input without a `body` is rejected with `BadRequest`
    /// and no call is planned.
    pub fn create_issue_call(&self, project_id: &str, input: &CreateIssue) -> (r: Result<
        BackendCall,
        IssueError,
    >)
        ensures
            r is Err <==> input.body is None,
            r is Err ==> r == Err::<BackendCall, IssueError>(IssueError::BadRequest),
            r matches Ok(call) ==> call@ == spec_create_issue_call(
                self.spec_host(),
                self.spec_credentials(),
                project_id@,
                input@,
            ),
    {
        match self {
            IssueService::Jira(svc) => svc.create_issue_call(project_id, input),
        }
    }

    /// Interpret what the backend came back with on a create.
    pub fn create_issue_result(
        &self,
        project_id: &str,
        input: CreateIssue,
        outcome: BackendOutcome<CreateResponse>,
    ) -> (r: Result<Issue, IssueError>)
        ensures
            r is Ok <==> outcome is Success,
            outcome matches BackendOutcome::Success(resp) ==> r matches Ok(issue) && issue@
                == spec_issue_from_create(project_id@, input@, resp@),
            outcome matches BackendOutcome::HttpStatus(status) ==> r == Err::<Issue, IssueError>(
                spec_classify_status(status),
            ),
            outcome is TransportFailed || outcome is DecodeFailed ==> r == Err::<
                Issue,
                IssueError,
            >(IssueError::Fault),
    {
        match self {
            IssueService::Jira(svc) => svc.create_issue_result(project_id, input, outcome),
        }
    }

    /// Plan the single outbound call of a get against the selected
    /// backend.
    pub fn get_issue_call(&self, issue_id: &str) -> (r: BackendCall)
        ensures
            r@ == spec_get_issue_call(self.spec_host(), self.spec_credentials(), issue_id@),
    {
        match self {
            IssueService::Jira(svc) => svc.get_issue_call(issue_id),
        }
    }

    /// Interpret what the backend came back with on a get.
    pub fn get_issue_result(&self, project_id: &str, outcome: BackendOutcome<GetResponse>) -> (r:
        Result<Issue, IssueError>)
        ensures
            r is Ok <==> outcome is Success,
            outcome matches BackendOutcome::Success(resp) ==> r matches Ok(issue) && issue@
                == spec_issue_from_get(project_id@, resp@),
            outcome matches BackendOutcome::HttpStatus(status) ==> r == Err::<Issue, IssueError>(
                spec_classify_status(status),
            ),
            outcome is TransportFailed || outcome is DecodeFailed ==> r == Err::<
                Issue,
                IssueError,
            >(IssueError::Fault),
    {
        match self {
            IssueService::Jira(svc) => svc.get_issue_result(project_id, outcome),
        }
    }
}

/// Law: the name of a created issue is derived from the project and
/// exactly the key the backend's create call returned.
pub proof fn lemma_create_name_uses_backend_key(
    project_id: Seq<char>,
    input: CreateIssueView,
    resp: CreateResponseView,
)
    ensures
        spec_issue_from_create(project_id, input, resp).name == spec_issue_name(
            project_id,
            resp.key,
        ),
{
}

/// Law: an issue read from the backend never carries an owner, whatever
/// the backend responded — no backend field maps to it.
pub proof fn lemma_get_owner_absent(project_id: Seq<char>, resp: GetResponseView)
    ensures
        spec_issue_from_get(project_id, resp).owner is None,
{
}

/// Law: getting an issue twice against an unchanged backend yields two
/// structurally identical issues — the mapping is a function of the
/// project and the backend response alone.
pub proof fn lemma_get_issue_idempotent(
    project_id: Seq<char>,
    first: GetResponseView,
    second: GetResponseView,
)
    requires
        first == second,
    ensures
        spec_issue_from_get(project_id, first) == spec_issue_from_get(project_id, second),
{
}

/// Law: the labels of a read issue are the backend's label sequence
/// exactly, element for element and in the same order.
pub proof fn lemma_get_labels_order_preserved(project_id: Seq<char>, resp: GetResponseView)
    ensures
        spec_issue_from_get(project_id, resp).labels == Some(resp.fields.labels),
        forall|i: int|
            0 <= i < resp.fields.labels.len() ==> spec_issue_from_get(project_id, resp).labels->0[i]
                == #[trigger] resp.fields.labels[i],
{
}

} // verus!
