//! The error taxonomy of the service's API surface.

use vstd::prelude::*;
use vstd::string::StringExecFns;

verus! {

/// The errors the API reports. Each maps to an HTTP status code and a
/// message; the variants carrying a string include it in the message.
#[derive(Debug)]
pub enum ApiError {
    InternalServerError,
    NotFound,
    NotFoundWorkflow(String),
    FailedToCreateWorkflow(String),
    FailedToDeleteWorkflow(String),
    NotFoundRepo(String),
    BadWorkflowRequest(String),
    FailedToDownloadRepo(String),
}

impl ApiError {
    /// The HTTP status code of the error.
    pub fn status_code(&self) -> (r: u16)
        ensures
            self is InternalServerError ==> r == 500,
            self is NotFound ==> r == 404,
            self is NotFoundWorkflow ==> r == 404,
            self is FailedToCreateWorkflow ==> r == 400,
            self is FailedToDeleteWorkflow ==> r == 500,
            self is NotFoundRepo ==> r == 500,
            self is BadWorkflowRequest ==> r == 400,
            self is FailedToDownloadRepo ==> r == 500,
    {
        match self {
            ApiError::InternalServerError => 500,
            ApiError::NotFound => 404,
            ApiError::NotFoundWorkflow(_) => 404,
            ApiError::FailedToCreateWorkflow(_) => 400,
            ApiError::FailedToDeleteWorkflow(_) => 500,
            ApiError::NotFoundRepo(_) => 500,
            ApiError::BadWorkflowRequest(_) => 400,
            ApiError::FailedToDownloadRepo(_) => 500,
        }
    }

    /// The message of the error, with the carried detail appended.
    pub fn message(&self) -> (r: String)
        ensures
            self is InternalServerError ==> r@ == "Internal Server Error"@,
            self is NotFound ==> r@ == "Not Found"@,
            forall|s: String| *self == ApiError::NotFoundWorkflow(s) ==> r@ == "Not Found Workflow: "@ + s@,
            forall|s: String|
                *self == ApiError::FailedToCreateWorkflow(s) ==> r@ == "Failed to create workflow: "@
                    + s@,
            forall|s: String|
                *self == ApiError::FailedToDeleteWorkflow(s) ==> r@ == "Failed to delete workflow: "@
                    + s@,
            forall|s: String| *self == ApiError::NotFoundRepo(s) ==> r@ == "Not Found Repo: "@ + s@,
            forall|s: String|
                *self == ApiError::BadWorkflowRequest(s) ==> r@ == "Bad Workflow Request: "@ + s@,
            forall|s: String|
                *self == ApiError::FailedToDownloadRepo(s) ==> r@
                    == "Failed to download repository: "@ + s@,
    {
        match self {
            ApiError::InternalServerError => String::from_str("Internal Server Error"),
            ApiError::NotFound => String::from_str("Not Found"),
            ApiError::NotFoundWorkflow(s) => String::from_str("Not Found Workflow: ").concat(
                s.as_str(),
            ),
            ApiError::FailedToCreateWorkflow(s) => String::from_str(
                "Failed to create workflow: ",
            ).concat(s.as_str()),
            ApiError::FailedToDeleteWorkflow(s) => String::from_str(
                "Failed to delete workflow: ",
            ).concat(s.as_str()),
            ApiError::NotFoundRepo(s) => String::from_str("Not Found Repo: ").concat(s.as_str()),
            ApiError::BadWorkflowRequest(s) => String::from_str("Bad Workflow Request: ").concat(
                s.as_str(),
            ),
            ApiError::FailedToDownloadRepo(s) => String::from_str(
                "Failed to download repository: ",
            ).concat(s.as_str()),
        }
    }
}

} // verus!
