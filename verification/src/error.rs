//! Error taxonomy of the adapter and its classification rules.

use vstd::prelude::*;

verus! {

/// A failure of an issue-backend operation, as classified by the adapter.
///
/// `BadRequest` marks malformed or incomplete caller input, `Unauthorized`
/// a backend that rejected the credentials, `NotFound` a referenced issue
/// or project that does not exist.  `Fault` covers every other backend
/// failure (transport breakdown, an undecodable response body, or an
/// unexpected status): the adapter never turns such a failure into a
/// default issue, it surfaces it as a distinguishable error.
#[derive(Clone, Copy, Debug, PartialEq, Eq, Structural)]
pub enum IssueError {
    BadRequest,
    Unauthorized,
    NotFound,
    Fault,
}

/// The error shape surfaced to the HTTP caller.
///
/// The transport layer maps each kind to a status code and a generic
/// message; no backend detail leaks through.
#[derive(Clone, Copy, Debug, PartialEq, Eq, Structural)]
pub enum AppError {
    BadRequest,
    Unauthorized,
    NotFound,
    Internal,
}

impl From<IssueError> for AppError {
    fn from(inner: IssueError) -> (r: Self) {
        match inner {
            IssueError::BadRequest => AppError::BadRequest,
            IssueError::Unauthorized => AppError::Unauthorized,
            IssueError::NotFound => AppError::NotFound,
            IssueError::Fault => AppError::Internal,
        }
    }
}

impl vstd::std_specs::convert::FromSpecImpl<IssueError> for AppError {
    open spec fn obeys_from_spec() -> bool {
        true
    }

    open spec fn from_spec(inner: IssueError) -> AppError {
        match inner {
            IssueError::BadRequest => AppError::BadRequest,
            IssueError::Unauthorized => AppError::Unauthorized,
            IssueError::NotFound => AppError::NotFound,
            IssueError::Fault => AppError::Internal,
        }
    }
}

/// The error that a backend HTTP status stands for.
///
/// 401 and 403 mean the backend rejected the credentials; 404 means the
/// target does not exist; any other status is an unclassified fault.
pub open spec fn spec_classify_status(status: u16) -> IssueError {
    if status == 401 || status == 403 {
        IssueError::Unauthorized
    } else if status == 404 {
        IssueError::NotFound
    } else {
        IssueError::Fault
    }
}

/// Classify a non-success backend HTTP status.
pub fn classify_status(status: u16) -> (e: IssueError)
    ensures
        e == spec_classify_status(status),
{
    if status == 401 || status == 403 {
        IssueError::Unauthorized
    } else if status == 404 {
        IssueError::NotFound
    } else {
        IssueError::Fault
    }
}

/// Law: create and get classify a backend status identically, by this
/// single rule — 401 and 403 surface as `Unauthorized`, 404 as
/// `NotFound`, and exactly every other status as an unclassified fault.
pub proof fn lemma_status_classification(status: u16)
    ensures
        (status == 401 || status == 403) <==> spec_classify_status(status)
            == IssueError::Unauthorized,
        (status == 404) <==> spec_classify_status(status) == IssueError::NotFound,
        !(status == 401 || status == 403 || status == 404) <==> spec_classify_status(status)
            == IssueError::Fault,
{
}

impl AppError {
    /// The HTTP status code that the transport layer answers with.
    pub open spec fn spec_status(self) -> u16 {
        match self {
            AppError::BadRequest => 400,
            AppError::Unauthorized => 401,
            AppError::NotFound => 404,
            AppError::Internal => 500,
        }
    }

    /// The HTTP status code for this error.
    pub fn status(&self) -> (s: u16)
        ensures
            s == self.spec_status(),
    {
        match self {
            AppError::BadRequest => 400,
            AppError::Unauthorized => 401,
            AppError::NotFound => 404,
            AppError::Internal => 500,
        }
    }

    /// The generic, caller-visible message for this error.
    pub open spec fn spec_message(self) -> Seq<char> {
        match self {
            AppError::BadRequest => "Bad Request"@,
            AppError::Unauthorized => "Unauthorized"@,
            AppError::NotFound => "Not Found"@,
            AppError::Internal => "Internal Server Error"@,
        }
    }

    /// The generic message for this error; never a backend detail.
    pub fn message(&self) -> (m: &'static str)
        ensures
            m@ == self.spec_message(),
    {
        match self {
            AppError::BadRequest => "Bad Request",
            AppError::Unauthorized => "Unauthorized",
            AppError::NotFound => "Not Found",
            AppError::Internal => "Internal Server Error",
        }
    }
}

} // verus!
