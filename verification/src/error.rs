//! The error answered to a refused request, by HTTP status class.
use vstd::prelude::*;

verus! {

/// A refused request: the status it maps to and a message for the caller.
#[derive(Debug)]
pub enum AppError {
    /// 400: the request cannot be served in the current state.
    BadRequest(String),
    /// 401: missing, invalid or revoked credentials.
    Unauthorized(String),
    /// 403: authenticated, but not allowed.
    Forbidden(String),
    /// 404: the resource does not exist.
    NotFound(String),
    /// 409: the request conflicts with existing state.
    Conflict(String),
    /// 500: an internal failure (crypto, storage).
    Internal(String),
}

/// A 401 answer with `msg`.
pub fn unauthorized(msg: &str) -> (res: AppError)
    ensures
        res matches AppError::Unauthorized(m) && m@ == msg@,
{
    AppError::Unauthorized(msg.to_owned())
}

/// A 400 answer with `msg`.
pub fn bad_request(msg: &str) -> (res: AppError)
    ensures
        res matches AppError::BadRequest(m) && m@ == msg@,
{
    AppError::BadRequest(msg.to_owned())
}

/// A 403 answer with `msg`.
pub fn forbidden(msg: &str) -> (res: AppError)
    ensures
        res matches AppError::Forbidden(m) && m@ == msg@,
{
    AppError::Forbidden(msg.to_owned())
}

/// A 404 answer with `msg`.
pub fn not_found(msg: &str) -> (res: AppError)
    ensures
        res matches AppError::NotFound(m) && m@ == msg@,
{
    AppError::NotFound(msg.to_owned())
}

/// A 409 answer with `msg`.
pub fn conflict(msg: &str) -> (res: AppError)
    ensures
        res matches AppError::Conflict(m) && m@ == msg@,
{
    AppError::Conflict(msg.to_owned())
}

/// A 500 answer with `msg`.
pub fn internal(msg: &str) -> (res: AppError)
    ensures
        res matches AppError::Internal(m) && m@ == msg@,
{
    AppError::Internal(msg.to_owned())
}

} // verus!
