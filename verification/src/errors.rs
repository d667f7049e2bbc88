//! The errors the service reports, and the HTTP answer given for each.

use vstd::prelude::*;
use crate::text::{text_of, push_str};

verus! {

/// An error of the service.
#[derive(Debug)]
pub enum AppError {
    /// The database failed; the text describes the failure.
    DbError(String),
    EventNotFound,
    Conflict,
    InvalidToken,
    Internal(String),
    BadRequest(String),
    UserNotInEvent(String),
    NotFound(String),
    Unauthorized,
    Forbidden(String),
}

/// The HTTP status code answered for an error.
pub open spec fn status_of(e: AppError) -> u16 {
    match e {
        AppError::EventNotFound => 404,
        AppError::Conflict => 409,
        AppError::InvalidToken => 401,
        AppError::DbError(_) => 500,
        AppError::Internal(_) => 500,
        AppError::BadRequest(_) => 400,
        AppError::UserNotInEvent(_) => 403,
        AppError::NotFound(_) => 404,
        AppError::Unauthorized => 401,
        AppError::Forbidden(_) => 403,
    }
}

/// The text put under `"error"` in the JSON body answered for an error.
pub open spec fn response_message_of(e: AppError) -> Seq<char> {
    match e {
        AppError::EventNotFound => "Event not found"@,
        AppError::Conflict => "Already exists"@,
        AppError::InvalidToken => "Invalid token"@,
        AppError::DbError(_) => "Database error"@,
        AppError::Internal(m) => m@,
        AppError::BadRequest(m) => m@,
        AppError::UserNotInEvent(m) => m@,
        AppError::NotFound(m) => m@,
        AppError::Unauthorized => "Unauthorized"@,
        AppError::Forbidden(m) => m@,
    }
}

/// The text of an error as it is displayed (in logs).
pub open spec fn display_of(e: AppError) -> Seq<char> {
    match e {
        AppError::DbError(_) => "Database error"@,
        AppError::EventNotFound => "Event not found"@,
        AppError::Conflict => "Already exists"@,
        AppError::InvalidToken => "Invalid or expired token"@,
        AppError::Internal(m) => "Internal error: "@ + m@,
        AppError::BadRequest(_) => "Invalid request"@,
        AppError::UserNotInEvent(_) => "User is not member"@,
        AppError::NotFound(_) => "Not found"@,
        AppError::Unauthorized => "Unauthorized"@,
        AppError::Forbidden(m) => "Forbidden: "@ + m@,
    }
}

impl AppError {
    /// The HTTP status code answered for this error.
    pub fn status_code(&self) -> (code: u16)
        ensures
            code == status_of(*self),
    {
        match self {
            AppError::EventNotFound => 404,
            AppError::Conflict => 409,
            AppError::InvalidToken => 401,
            AppError::DbError(_) => 500,
            AppError::Internal(_) => 500,
            AppError::BadRequest(_) => 400,
            AppError::UserNotInEvent(_) => 403,
            AppError::NotFound(_) => 404,
            AppError::Unauthorized => 401,
            AppError::Forbidden(_) => 403,
        }
    }

    /// The text answered under `"error"` for this error.
    pub fn response_message(&self) -> (m: String)
        ensures
            m@ == response_message_of(*self),
    {
        match self {
            AppError::EventNotFound => text_of("Event not found"),
            AppError::Conflict => text_of("Already exists"),
            AppError::InvalidToken => text_of("Invalid token"),
            AppError::DbError(_) => text_of("Database error"),
            AppError::Internal(m) => m.clone(),
            AppError::BadRequest(m) => m.clone(),
            AppError::UserNotInEvent(m) => m.clone(),
            AppError::NotFound(m) => m.clone(),
            AppError::Unauthorized => text_of("Unauthorized"),
            AppError::Forbidden(m) => m.clone(),
        }
    }

    /// The status code and the text of the answer for this error.
    pub fn to_response_parts(&self) -> (r: (u16, String))
        ensures
            r.0 == status_of(*self),
            r.1@ == response_message_of(*self),
    {
        (self.status_code(), self.response_message())
    }

    /// The text of this error as it is displayed.
    pub fn to_display_string(&self) -> (s: String)
        ensures
            s@ == display_of(*self),
    {
        match self {
            AppError::DbError(_) => text_of("Database error"),
            AppError::EventNotFound => text_of("Event not found"),
            AppError::Conflict => text_of("Already exists"),
            AppError::InvalidToken => text_of("Invalid or expired token"),
            AppError::Internal(m) => {
                let mut s = text_of("Internal error: ");
                push_str(&mut s, m.as_str());
                s
            },
            AppError::BadRequest(_) => text_of("Invalid request"),
            AppError::UserNotInEvent(_) => text_of("User is not member"),
            AppError::NotFound(_) => text_of("Not found"),
            AppError::Unauthorized => text_of("Unauthorized"),
            AppError::Forbidden(m) => {
                let mut s = text_of("Forbidden: ");
                push_str(&mut s, m.as_str());
                s
            },
        }
    }
}

} // verus!
