//! The closed failure taxonomy, and its rendering at the HTTP boundary: a
//! status code, a fixed uppercase-underscore code label, and a diagnostic
//! message.

use vstd::prelude::*;
use vstd::string::StringExecFns;

verus! {

/// A failure carried from the repository or a handler up to the HTTP
/// boundary; the payload is a human-readable diagnostic detail.
#[derive(Debug)]
pub enum AppError {
    /// The requested id or name has no matching row.
    RecordNotFound(String),
    /// A create request's name collides with an existing record.
    RecordFound(String),
    /// The backing store reported an error.
    DatabaseError(String),
    /// An invariant the code assumed was violated.
    ApplicationError(String),
}

/// The ghost image of an `AppError`: the same variant with the detail as a
/// character sequence.
pub ghost enum AppErrorModel {
    RecordNotFound(Seq<char>),
    RecordFound(Seq<char>),
    DatabaseError(Seq<char>),
    ApplicationError(Seq<char>),
}

impl View for AppError {
    type V = AppErrorModel;

    open spec fn view(&self) -> AppErrorModel {
        match self {
            AppError::RecordNotFound(d) => AppErrorModel::RecordNotFound(d@),
            AppError::RecordFound(d) => AppErrorModel::RecordFound(d@),
            AppError::DatabaseError(d) => AppErrorModel::DatabaseError(d@),
            AppError::ApplicationError(d) => AppErrorModel::ApplicationError(d@),
        }
    }
}

impl Clone for AppError {
    fn clone(&self) -> (r: Self)
        ensures
            r@ == self@,
    {
        match self {
            AppError::RecordNotFound(d) => AppError::RecordNotFound(d.clone()),
            AppError::RecordFound(d) => AppError::RecordFound(d.clone()),
            AppError::DatabaseError(d) => AppError::DatabaseError(d.clone()),
            AppError::ApplicationError(d) => AppError::ApplicationError(d.clone()),
        }
    }
}

/// The response-code label attached to every non-success response body.
#[derive(Clone, Copy, Debug, PartialEq, Eq, Structural)]
pub enum ErrorCode {
    DataError,
    RepositoryError,
    ApplicationError,
}

/// The taxonomy kind each failure is reported under: absence and collision
/// are data errors, store failures are repository errors, violated
/// invariants are application errors.
pub open spec fn code_of(e: AppErrorModel) -> ErrorCode {
    match e {
        AppErrorModel::RecordNotFound(_) => ErrorCode::DataError,
        AppErrorModel::RecordFound(_) => ErrorCode::DataError,
        AppErrorModel::DatabaseError(_) => ErrorCode::RepositoryError,
        AppErrorModel::ApplicationError(_) => ErrorCode::ApplicationError,
    }
}

impl From<AppError> for ErrorCode {
    fn from(error: AppError) -> (r: ErrorCode) {
        match error {
            AppError::RecordNotFound(_) => ErrorCode::DataError,
            AppError::RecordFound(_) => ErrorCode::DataError,
            AppError::DatabaseError(_) => ErrorCode::RepositoryError,
            AppError::ApplicationError(_) => ErrorCode::ApplicationError,
        }
    }
}

impl vstd::std_specs::convert::FromSpecImpl<AppError> for ErrorCode {
    open spec fn obeys_from_spec() -> bool {
        true
    }

    open spec fn from_spec(v: AppError) -> ErrorCode {
        code_of(v@)
    }
}

/// The HTTP status each failure maps to: absence is 404, collision is 400,
/// everything else is an internal failure, 500.
pub open spec fn status_of(e: AppErrorModel) -> u16 {
    match e {
        AppErrorModel::RecordNotFound(_) => 404u16,
        AppErrorModel::RecordFound(_) => 400u16,
        AppErrorModel::DatabaseError(_) => 500u16,
        AppErrorModel::ApplicationError(_) => 500u16,
    }
}

/// The diagnostic message of a failure: a fixed prefix for the variant,
/// followed by the detail it carries.
pub open spec fn message_of(e: AppErrorModel) -> Seq<char> {
    match e {
        AppErrorModel::RecordNotFound(d) => "record not found "@ + d,
        AppErrorModel::RecordFound(d) => "record already exist "@ + d,
        AppErrorModel::DatabaseError(d) => "error with repository "@ + d,
        AppErrorModel::ApplicationError(d) => "error with application "@ + d,
    }
}

/// The fixed label each response-code variant serializes to.
pub open spec fn label_of(c: ErrorCode) -> Seq<char> {
    match c {
        ErrorCode::DataError => "DATA_ERROR"@,
        ErrorCode::RepositoryError => "REPOSITORY_ERROR"@,
        ErrorCode::ApplicationError => "APPLICATION_ERROR"@,
    }
}

impl ErrorCode {
    /// The uppercase-underscore form this code takes in a response body.
    pub fn as_label(&self) -> (r: String)
        ensures
            r@ == label_of(*self),
    {
        match self {
            ErrorCode::DataError => String::from_str("DATA_ERROR"),
            ErrorCode::RepositoryError => String::from_str("REPOSITORY_ERROR"),
            ErrorCode::ApplicationError => String::from_str("APPLICATION_ERROR"),
        }
    }
}

/// The body every non-success response serializes: the code label and the
/// diagnostic message.
#[derive(Debug)]
pub struct ErrorResponse {
    pub code: ErrorCode,
    pub message: String,
}

impl AppError {
    /// The HTTP status this failure maps to.
    pub fn status(&self) -> (s: u16)
        ensures
            s == status_of(self@),
    {
        match self {
            AppError::RecordNotFound(_) => 404,
            AppError::RecordFound(_) => 400,
            AppError::DatabaseError(_) => 500,
            AppError::ApplicationError(_) => 500,
        }
    }

    /// The diagnostic message this failure renders to.
    pub fn message(&self) -> (m: String)
        ensures
            m@ == message_of(self@),
    {
        match self {
            AppError::RecordNotFound(d) => String::from_str("record not found ").concat(
                d.as_str(),
            ),
            AppError::RecordFound(d) => String::from_str("record already exist ").concat(
                d.as_str(),
            ),
            AppError::DatabaseError(d) => String::from_str("error with repository ").concat(
                d.as_str(),
            ),
            AppError::ApplicationError(d) => String::from_str("error with application ").concat(
                d.as_str(),
            ),
        }
    }

    /// The full rendering of this failure at the HTTP boundary: the status
    /// code and the `{code, message}` response body.
    pub fn into_response(self) -> (r: (u16, ErrorResponse))
        ensures
            r.0 == status_of(self@),
            r.1.code == code_of(self@),
            r.1.message@ == message_of(self@),
    {
        let status = self.status();
        let message = self.message();
        let code = ErrorCode::from(self);
        (status, ErrorResponse { code, message })
    }
}

} // verus!
