//! The canonical issue model and the backend wire schema.
//!
//! The canonical types (`Issue`, `CreateIssue`) are the backend-agnostic
//! shapes exposed at the API boundary.  The wire types (`CreateRequest`,
//! `CreateResponse`, `GetResponse` and their parts) mirror the Jira-shaped
//! backend's JSON schema and never leave the adapter.  Every type carries
//! a view: a ghost struct of sequences that the adapter's contracts are
//! stated over.

use vstd::prelude::*;

verus! {

/// The canonical, backend-agnostic issue resource.
///
/// `name` is the resource path `projects/{project_id}/issues/{issue_key}`;
/// it is always derived from the backend-assigned key, never supplied by
/// a caller.
#[derive(Debug, Clone, PartialEq)]
pub struct Issue {
    pub name: String,
    pub title: String,
    pub body: Option<String>,
    pub owner: Option<String>,
    pub assignee: Option<String>,
    pub labels: Option<Vec<String>>,
}

/// The mathematical value of an [`Issue`].
pub ghost struct IssueView {
    pub name: Seq<char>,
    pub title: Seq<char>,
    pub body: Option<Seq<char>>,
    pub owner: Option<Seq<char>>,
    pub assignee: Option<Seq<char>>,
    pub labels: Option<Seq<Seq<char>>>,
}

impl View for Issue {
    type V = IssueView;

    open spec fn view(&self) -> IssueView {
        IssueView {
            name: self.name@,
            title: self.title@,
            body: self.body.deep_view(),
            owner: self.owner.deep_view(),
            assignee: self.assignee.deep_view(),
            labels: self.labels.deep_view(),
        }
    }
}

/// A caller's request to create an issue.
///
/// `title` is required; `body` is required by the adapter's own contract
/// (the backend schema has no optional description).  `owner`, `assignee`
/// and `labels` are accepted and echoed back, but the backend create call
/// does not transmit them.
#[derive(Debug, Clone, PartialEq)]
pub struct CreateIssue {
    pub title: String,
    pub body: Option<String>,
    pub owner: Option<String>,
    pub assignee: Option<String>,
    pub labels: Option<Vec<String>>,
}

/// The mathematical value of a [`CreateIssue`].
pub ghost struct CreateIssueView {
    pub title: Seq<char>,
    pub body: Option<Seq<char>>,
    pub owner: Option<Seq<char>>,
    pub assignee: Option<Seq<char>>,
    pub labels: Option<Seq<Seq<char>>>,
}

impl View for CreateIssue {
    type V = CreateIssueView;

    open spec fn view(&self) -> CreateIssueView {
        CreateIssueView {
            title: self.title@,
            body: self.body.deep_view(),
            owner: self.owner.deep_view(),
            assignee: self.assignee.deep_view(),
            labels: self.labels.deep_view(),
        }
    }
}

/// Backend wire type: the project an issue belongs to.
#[derive(Debug, Clone, PartialEq)]
pub struct Project {
    pub key: String,
}

/// The mathematical value of a [`Project`].
pub ghost struct ProjectView {
    pub key: Seq<char>,
}

impl View for Project {
    type V = ProjectView;

    open spec fn view(&self) -> ProjectView {
        ProjectView { key: self.key@ }
    }
}

/// Backend wire type: the kind of an issue; fixed to `"Task"` on create.
#[derive(Debug, Clone, PartialEq)]
pub struct IssueType {
    pub name: String,
}

/// The mathematical value of an [`IssueType`].
pub ghost struct IssueTypeView {
    pub name: Seq<char>,
}

impl View for IssueType {
    type V = IssueTypeView;

    open spec fn view(&self) -> IssueTypeView {
        IssueTypeView { name: self.name@ }
    }
}

/// Backend wire type: the fields transmitted by a create call.
#[derive(Debug, Clone, PartialEq)]
pub struct Fields {
    pub project: Project,
    pub issuetype: IssueType,
    pub summary: String,
    pub description: String,
}

/// The mathematical value of a [`Fields`].
pub ghost struct FieldsView {
    pub project: ProjectView,
    pub issuetype: IssueTypeView,
    pub summary: Seq<char>,
    pub description: Seq<char>,
}

impl View for Fields {
    type V = FieldsView;

    open spec fn view(&self) -> FieldsView {
        FieldsView {
            project: self.project@,
            issuetype: self.issuetype@,
            summary: self.summary@,
            description: self.description@,
        }
    }
}

/// Backend wire type: the outbound payload of a create call.
#[derive(Debug, Clone, PartialEq)]
pub struct CreateRequest {
    pub fields: Fields,
}

/// The mathematical value of a [`CreateRequest`].
pub ghost struct CreateRequestView {
    pub fields: FieldsView,
}

impl View for CreateRequest {
    type V = CreateRequestView;

    open spec fn view(&self) -> CreateRequestView {
        CreateRequestView { fields: self.fields@ }
    }
}

/// Backend wire type: the body of a successful create response.
///
/// Only `key` is read by the adapter; `id` and `url` are carried along
/// untouched.
#[derive(Debug, Clone, PartialEq)]
pub struct CreateResponse {
    pub id: String,
    pub key: String,
    pub url: String,
}

/// The mathematical value of a [`CreateResponse`].
pub ghost struct CreateResponseView {
    pub id: Seq<char>,
    pub key: Seq<char>,
    pub url: Seq<char>,
}

impl View for CreateResponse {
    type V = CreateResponseView;

    open spec fn view(&self) -> CreateResponseView {
        CreateResponseView { id: self.id@, key: self.key@, url: self.url@ }
    }
}

/// Backend wire type: the assignee record inside a get response.
///
/// Only `name` is surfaced to callers.
#[derive(Debug, Clone, PartialEq)]
pub struct Assignee {
    pub key: String,
    pub name: String,
    pub email_address: String,
    pub display_name: String,
}

/// The mathematical value of an [`Assignee`].
pub ghost struct AssigneeView {
    pub key: Seq<char>,
    pub name: Seq<char>,
    pub email_address: Seq<char>,
    pub display_name: Seq<char>,
}

impl View for Assignee {
    type V = AssigneeView;

    open spec fn view(&self) -> AssigneeView {
        AssigneeView {
            key: self.key@,
            name: self.name@,
            email_address: self.email_address@,
            display_name: self.display_name@,
        }
    }
}

/// Backend wire type: the fields carried by a get response.
#[derive(Debug, Clone, PartialEq)]
pub struct GetFields {
    pub project: Project,
    pub issuetype: IssueType,
    pub summary: String,
    pub description: String,
    pub assignee: Assignee,
    pub labels: Vec<String>,
}

/// The mathematical value of a [`GetFields`].
pub ghost struct GetFieldsView {
    pub project: ProjectView,
    pub issuetype: IssueTypeView,
    pub summary: Seq<char>,
    pub description: Seq<char>,
    pub assignee: AssigneeView,
    pub labels: Seq<Seq<char>>,
}

impl View for GetFields {
    type V = GetFieldsView;

    open spec fn view(&self) -> GetFieldsView {
        GetFieldsView {
            project: self.project@,
            issuetype: self.issuetype@,
            summary: self.summary@,
            description: self.description@,
            assignee: self.assignee@,
            labels: self.labels.deep_view(),
        }
    }
}

/// Backend wire type: the body of a successful get response.
#[derive(Debug, Clone, PartialEq)]
pub struct GetResponse {
    pub id: String,
    pub key: String,
    pub url: String,
    pub fields: GetFields,
}

/// The mathematical value of a [`GetResponse`].
pub ghost struct GetResponseView {
    pub id: Seq<char>,
    pub key: Seq<char>,
    pub url: Seq<char>,
    pub fields: GetFieldsView,
}

impl View for GetResponse {
    type V = GetResponseView;

    open spec fn view(&self) -> GetResponseView {
        GetResponseView {
            id: self.id@,
            key: self.key@,
            url: self.url@,
            fields: self.fields@,
        }
    }
}

} // verus!
