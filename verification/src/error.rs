//! Projection of native integer status codes into a structured error taxonomy.
//!
//! Every status code the native library reports is projected here, at the
//! boundary, into either success or one of a fixed set of error kinds; no raw
//! code travels further into the library than this module.

use vstd::prelude::*;

verus! {

/// Native status code for a successful call.
pub const STATUS_OK: i32 = 0;
/// Native status code: the platform service could not be reached.
pub const STATUS_SERVICE_UNAVAILABLE: i32 = 1;
/// Native status code: the linked native library rejected the API version.
pub const STATUS_INVALID_VERSION: i32 = 2;
/// Native status code: an unspecified failure inside the native library.
pub const STATUS_INTERNAL_ERROR: i32 = 4;
/// Native status code: the caller lacks the permissions for the operation.
pub const STATUS_INVALID_PERMISSIONS: i32 = 7;
/// Native status code: the requested entity does not exist.
pub const STATUS_NOT_FOUND: i32 = 9;
/// Native status code: a supplied secret or token was rejected.
pub const STATUS_INVALID_SECRET: i32 = 11;
/// Native status code: the platform client is not installed on this machine.
pub const STATUS_NOT_INSTALLED: i32 = 26;
/// Native status code: the platform client is installed but not running.
pub const STATUS_NOT_RUNNING: i32 = 27;
/// Native status code: the caller is being rate limited.
pub const STATUS_RATE_LIMITED: i32 = 34;
/// Native status code: a store transaction was aborted.
pub const STATUS_TRANSACTION_ABORTED: i32 = 43;

/// Structured error kind, one per native failure the taxonomy distinguishes.
/// Codes outside the fixed table are preserved verbatim in `Other`.
#[derive(Clone, Copy, Debug, PartialEq, Eq, Structural)]
pub enum DiscordError {
    NotFound,
    InvalidPermissions,
    InvalidCredentials,
    NetworkError,
    RateLimited,
    InternalError,
    UnsupportedPlatform,
    NotRunning,
    IncompatibleVersion,
    TransactionAborted,
    Other(i32),
}

/// Outcome of a native call or of an asynchronous completion.
pub type DiscordResult<T> = Result<T, DiscordError>;

/// The error kind a non-success native status code projects to.
pub open spec fn spec_error_of(code: i32) -> DiscordError {
    if code == STATUS_SERVICE_UNAVAILABLE {
        DiscordError::NetworkError
    } else if code == STATUS_INVALID_VERSION {
        DiscordError::IncompatibleVersion
    } else if code == STATUS_INTERNAL_ERROR {
        DiscordError::InternalError
    } else if code == STATUS_INVALID_PERMISSIONS {
        DiscordError::InvalidPermissions
    } else if code == STATUS_NOT_FOUND {
        DiscordError::NotFound
    } else if code == STATUS_INVALID_SECRET {
        DiscordError::InvalidCredentials
    } else if code == STATUS_NOT_INSTALLED {
        DiscordError::UnsupportedPlatform
    } else if code == STATUS_NOT_RUNNING {
        DiscordError::NotRunning
    } else if code == STATUS_RATE_LIMITED {
        DiscordError::RateLimited
    } else if code == STATUS_TRANSACTION_ABORTED {
        DiscordError::TransactionAborted
    } else {
        DiscordError::Other(code)
    }
}

/// What a native status code projects to: success exactly for `STATUS_OK`,
/// otherwise the matching error kind.
pub open spec fn spec_projected(code: i32) -> DiscordResult<()> {
    if code == STATUS_OK {
        Ok(())
    } else {
        Err(spec_error_of(code))
    }
}

/// Projects a native status code: `Ok` exactly when the code is `STATUS_OK`,
/// otherwise the error kind of the fixed table, with unknown codes kept in
/// `DiscordError::Other`.
pub fn project_result(code: i32) -> (r: DiscordResult<()>)
    ensures
        r == spec_projected(code),
{
    if code == STATUS_OK {
        Ok(())
    } else if code == STATUS_SERVICE_UNAVAILABLE {
        Err(DiscordError::NetworkError)
    } else if code == STATUS_INVALID_VERSION {
        Err(DiscordError::IncompatibleVersion)
    } else if code == STATUS_INTERNAL_ERROR {
        Err(DiscordError::InternalError)
    } else if code == STATUS_INVALID_PERMISSIONS {
        Err(DiscordError::InvalidPermissions)
    } else if code == STATUS_NOT_FOUND {
        Err(DiscordError::NotFound)
    } else if code == STATUS_INVALID_SECRET {
        Err(DiscordError::InvalidCredentials)
    } else if code == STATUS_NOT_INSTALLED {
        Err(DiscordError::UnsupportedPlatform)
    } else if code == STATUS_NOT_RUNNING {
        Err(DiscordError::NotRunning)
    } else if code == STATUS_RATE_LIMITED {
        Err(DiscordError::RateLimited)
    } else if code == STATUS_TRANSACTION_ABORTED {
        Err(DiscordError::TransactionAborted)
    } else {
        Err(DiscordError::Other(code))
    }
}

/// The error kind for a non-success status code.
pub fn error_of(code: i32) -> (r: DiscordError)
    requires
        code != STATUS_OK,
    ensures
        r == spec_error_of(code),
{
    match project_result(code) {
        Err(e) => e,
        Ok(()) => DiscordError::Other(code),
    }
}

} // verus!
