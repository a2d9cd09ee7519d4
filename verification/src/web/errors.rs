//! The HTTP status and body each application error is answered with.
use crate::error::{AppError, AI_003, AUTH_001, AUTH_002, AUTH_003, AUTH_004, AUTH_005, PLAT_003, TASK_003};
use crate::text::str_eq;
use crate::types::ApiError;
use vstd::prelude::*;

verus! {

broadcast use vstd::string::group_string_axioms;

/// An application error on its way to the client.
#[derive(Debug)]
pub struct WebError(pub AppError);

/// The HTTP status of an error: conflicts, unauthorized and bad requests
/// for authentication, too many requests for exhausted quotas and limits,
/// not found for configuration, server errors for the rest.
pub open spec fn status_of(e: AppError) -> u16 {
    match e {
        AppError::Auth { code, .. } => if code@ == AUTH_001@ {
            409
        } else if code@ == AUTH_002@ || code@ == AUTH_003@ {
            401
        } else if code@ == AUTH_004@ || code@ == AUTH_005@ {
            400
        } else {
            401
        },
        AppError::Validation { .. } => 400,
        AppError::Ai { code, .. } => if code@ == AI_003@ {
            429
        } else {
            500
        },
        AppError::Task { code, .. } => if code@ == TASK_003@ {
            429
        } else {
            400
        },
        AppError::Platform { code, .. } => if code@ == PLAT_003@ {
            429
        } else {
            400
        },
        AppError::Config { .. } => 404,
        AppError::Crypto { .. } => 500,
        AppError::Db(_) => 500,
        AppError::Internal(_) => 500,
    }
}

/// The error hides its details from the client.
pub open spec fn is_internal(e: AppError) -> bool {
    e is Db || e is Internal
}

impl WebError {
    /// The HTTP status the error is answered with.
    pub fn status(&self) -> (r: u16)
        ensures
            r == status_of(self.0),
    {
        match &self.0 {
            AppError::Auth { code, .. } => if str_eq(code, AUTH_001) {
                409
            } else if str_eq(code, AUTH_002) || str_eq(code, AUTH_003) {
                401
            } else if str_eq(code, AUTH_004) || str_eq(code, AUTH_005) {
                400
            } else {
                401
            },
            AppError::Validation { .. } => 400,
            AppError::Ai { code, .. } => if str_eq(code, AI_003) {
                429
            } else {
                500
            },
            AppError::Task { code, .. } => if str_eq(code, TASK_003) {
                429
            } else {
                400
            },
            AppError::Platform { code, .. } => if str_eq(code, PLAT_003) {
                429
            } else {
                400
            },
            AppError::Config { .. } => 404,
            AppError::Crypto { .. } => 500,
            AppError::Db(_) => 500,
            AppError::Internal(_) => 500,
        }
    }

    /// The body of the answer: the error's code and text, or a generic
    /// internal error where the cause is a database or internal failure.
    pub fn body(&self) -> (r: ApiError)
        ensures
            is_internal(self.0) ==> r.code@ == "INTERNAL_001"@ && r.message@ == "内部错误"@,
            !is_internal(self.0) ==> r.code@ == self.0.code_text() && r.message@
                == self.0.display_text(),
    {
        match &self.0 {
            AppError::Db(_) | AppError::Internal(_) => ApiError::new("INTERNAL_001", "内部错误"),
            _ => self.0.to_api_error(),
        }
    }
}

} // verus!
