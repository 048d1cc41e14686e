use vstd::prelude::*;

verus! {

/// Why a request could not be authenticated. The reason is kept for
/// diagnostics; callers see one generic denial.
#[derive(Clone, Copy, Debug, PartialEq, Eq, Structural)]
pub enum AuthFailure {
    MissingHeader,
    MalformedHeader,
    InvalidToken,
    InvalidCredentials,
}

/// Which input failed validation.
#[derive(Clone, Copy, Debug, PartialEq, Eq, Structural)]
pub enum Invalid {
    Id,
    MissingFields,
    DueDate,
    EmailTaken,
}

/// The failure categories a request can end in.
#[derive(Clone, Copy, Debug, PartialEq, Eq, Structural)]
pub enum ApiError {
    /// No valid token, or bad credentials at login.
    Unauthenticated(AuthFailure),
    /// Authenticated, but the role or ownership rule refuses the action.
    Forbidden,
    /// No record matches the (authorized) filter.
    NotFound,
    /// A malformed identifier, a missing field or an unparsable date.
    Validation(Invalid),
    /// Storage or a collaborator failed; the same request may be retried.
    Transient,
}

impl ApiError {
    /// The category name of this error.
    pub fn category(&self) -> &'static str {
        match self {
            ApiError::Unauthenticated(_) => "unauthenticated",
            ApiError::Forbidden => "forbidden",
            ApiError::NotFound => "not_found",
            ApiError::Validation(_) => "validation",
            ApiError::Transient => "transient",
        }
    }

    /// A human-readable message that names no internal detail.
    pub fn message(&self) -> &'static str {
        match self {
            ApiError::Unauthenticated(AuthFailure::MissingHeader) => "Missing Authorization header",
            ApiError::Unauthenticated(AuthFailure::MalformedHeader) => "Malformed Authorization header",
            ApiError::Unauthenticated(AuthFailure::InvalidToken) => "Invalid or expired token",
            ApiError::Unauthenticated(AuthFailure::InvalidCredentials) => "Invalid email or password",
            ApiError::Forbidden => "Forbidden: not permitted",
            ApiError::NotFound => "Not found",
            ApiError::Validation(Invalid::Id) => "Invalid id",
            ApiError::Validation(Invalid::MissingFields) => "Missing required fields",
            ApiError::Validation(Invalid::DueDate) => "Invalid due date",
            ApiError::Validation(Invalid::EmailTaken) => "Email already registered",
            ApiError::Transient => "Temporary failure, please retry",
        }
    }
}

} // verus!
