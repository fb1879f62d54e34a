use vstd::prelude::*;

verus! {

/// The kinds of failure that reach a caller of the gateway.
#[derive(Clone, Copy, Debug, PartialEq, Eq, Structural)]
pub enum ApiError {
    /// The token is missing, malformed or not valid, or names no user.
    Unauthenticated,
    /// The user is banned from the whole site.
    SiteBanned,
    NotAnAdmin,
    NotAModOrAdmin,
    /// The user is banned from the community.
    CommunityBanned,
    PostNotFound,
    /// The payload does not decode into the operation's command.
    MalformedPayload,
    /// The message names no known operation.
    UnknownOperation,
    /// The worker pool could not run a storage access.
    InfrastructureFailure,
}

/// The stable code under which an error kind is shown to clients.
pub open spec fn error_code(e: ApiError) -> Seq<char> {
    match e {
        ApiError::Unauthenticated => "not_logged_in"@,
        ApiError::SiteBanned => "site_ban"@,
        ApiError::NotAnAdmin => "not_an_admin"@,
        ApiError::NotAModOrAdmin => "not_a_mod_or_admin"@,
        ApiError::CommunityBanned => "community_ban"@,
        ApiError::PostNotFound => "couldnt_find_post"@,
        ApiError::MalformedPayload => "couldnt_parse_payload"@,
        ApiError::UnknownOperation => "unknown_operation"@,
        ApiError::InfrastructureFailure => "blocking_error"@,
    }
}

impl ApiError {
    /// The stable code of this error kind.
    pub fn code(&self) -> (r: &'static str)
        ensures
            r@ == error_code(*self),
    {
        match self {
            ApiError::Unauthenticated => "not_logged_in",
            ApiError::SiteBanned => "site_ban",
            ApiError::NotAnAdmin => "not_an_admin",
            ApiError::NotAModOrAdmin => "not_a_mod_or_admin",
            ApiError::CommunityBanned => "community_ban",
            ApiError::PostNotFound => "couldnt_find_post",
            ApiError::MalformedPayload => "couldnt_parse_payload",
            ApiError::UnknownOperation => "unknown_operation",
            ApiError::InfrastructureFailure => "blocking_error",
        }
    }
}

/// The worker pool failed to run a storage access: the check could not be
/// performed at all.
#[derive(Clone, Copy, Debug, PartialEq, Eq, Structural)]
pub struct BlockingError;

/// A storage read that ran and failed (no such row, or the store refused).
#[derive(Clone, Copy, Debug, PartialEq, Eq, Structural)]
pub enum StoreError {
    NotFound,
    Failed,
}

/// What a storage read run on the worker pool hands back: the outer layer
/// says whether it ran, the inner one what the read found.
pub type Bridged<T> = Result<Result<T, StoreError>, BlockingError>;

} // verus!
