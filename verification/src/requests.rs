//! What the submission boundary answers when it refuses a request.

use vstd::prelude::*;

verus! {

/// The status of an answer.
#[derive(Debug, Clone, Copy, PartialEq, Eq, Structural)]
pub enum StatusCode {
    Success,
    BadRequest,
    InternalServerError,
    NotFound,
}

/// Why a submission was refused, with the reason in words.
#[derive(Debug, Clone, PartialEq, Eq)]
pub enum ApiError {
    /// The task could not be registered.
    TaskCreationFailed(String),
    /// The request asks for what cannot be computed.
    InvalidInput(String),
}

/// The mathematical content of an `ApiError`.
pub ghost enum ApiErrorView {
    TaskCreationFailed(Seq<char>),
    InvalidInput(Seq<char>),
}

impl View for ApiError {
    type V = ApiErrorView;

    open spec fn view(&self) -> ApiErrorView {
        match self {
            ApiError::TaskCreationFailed(reason) => ApiErrorView::TaskCreationFailed(reason@),
            ApiError::InvalidInput(reason) => ApiErrorView::InvalidInput(reason@),
        }
    }
}

impl ApiErrorView {
    /// The status with which the refusal is answered: a request at fault is
    /// a bad request, a registry at fault a server error.
    pub open spec fn status_code(self) -> StatusCode {
        match self {
            ApiErrorView::TaskCreationFailed(_) => StatusCode::InternalServerError,
            ApiErrorView::InvalidInput(_) => StatusCode::BadRequest,
        }
    }
}

impl ApiError {
    /// The status with which the refusal is answered.
    pub fn status_code(&self) -> (status: StatusCode)
        ensures
            status == self@.status_code(),
    {
        match self {
            ApiError::TaskCreationFailed(_) => StatusCode::InternalServerError,
            ApiError::InvalidInput(_) => StatusCode::BadRequest,
        }
    }
}

} // verus!
