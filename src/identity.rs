use vstd::prelude::*;
use crate::error::{ApiError, Bridged};

verus! {

/// The verified contents of a login token.
#[derive(Clone, Copy, Debug, PartialEq, Eq, Structural)]
pub struct Claims {
    /// The id of the user that the token was issued to.
    pub id: i32,
    /// When the token was issued, in seconds since the epoch.
    pub iat: i64,
}

/// A token that failed to decode, or whose signature or expiry did not hold.
#[derive(Clone, Copy, Debug, PartialEq, Eq, Structural)]
pub struct TokenRejected;

/// What the gateway reads of a user's record.
#[derive(Clone, Copy, Debug, PartialEq, Eq, Structural)]
pub struct UserRecord {
    pub id: i32,
    /// Site-wide administrator.
    pub admin: bool,
    /// Banned from the whole site.
    pub banned: bool,
}

/// Which user to load once a token has been decoded.
pub open spec fn subject_spec(decoded: Result<Claims, TokenRejected>) -> Result<i32, ApiError> {
    match decoded {
        Ok(c) => Ok(c.id),
        Err(_) => Err(ApiError::Unauthenticated),
    }
}

/// Whether a loaded record may act: a missing record looks like a bad token,
/// a banned one is refused.
pub open spec fn admit_spec(loaded: Bridged<UserRecord>) -> Result<UserRecord, ApiError> {
    match loaded {
        Err(_) => Err(ApiError::InfrastructureFailure),
        Ok(Err(_)) => Err(ApiError::Unauthenticated),
        Ok(Ok(u)) => if u.banned {
            Err(ApiError::SiteBanned)
        } else {
            Ok(u)
        },
    }
}

/// The identity that a token resolves to, given what decoding it gave and
/// what loading its subject gave.
pub open spec fn resolve_spec(
    decoded: Result<Claims, TokenRejected>,
    loaded: Bridged<UserRecord>,
) -> Result<UserRecord, ApiError> {
    match subject_spec(decoded) {
        Err(e) => Err(e),
        Ok(_) => admit_spec(loaded),
    }
}

/// The first step of resolving a token: the id of the user to load, or
/// `Unauthenticated` for a token that did not decode or verify.
pub fn user_id_from_claims(decoded: Result<Claims, TokenRejected>) -> (r: Result<i32, ApiError>)
    ensures
        r == subject_spec(decoded),
{
    match decoded {
        Ok(c) => Ok(c.id),
        Err(_) => Err(ApiError::Unauthenticated),
    }
}

/// The second step of resolving a token: the loaded record, unless it could
/// not be loaded or is banned from the site.
pub fn get_user_from_jwt(loaded: Bridged<UserRecord>) -> (r: Result<UserRecord, ApiError>)
    ensures
        r == admit_spec(loaded),
{
    match loaded {
        Err(_) => Err(ApiError::InfrastructureFailure),
        Ok(Err(_)) => Err(ApiError::Unauthenticated),
        Ok(Ok(u)) => {
            if u.banned {
                Err(ApiError::SiteBanned)
            } else {
                Ok(u)
            }
        },
    }
}

/// Where no token was given there is no identity; otherwise the outcome of
/// resolving the token is handed on as it is.
pub fn get_user_from_jwt_opt(resolved: Option<Result<UserRecord, ApiError>>) -> (r: Result<
    Option<UserRecord>,
    ApiError,
>)
    ensures
        r == match resolved {
            None => Ok(None),
            Some(Ok(u)) => Ok(Some(u)),
            Some(Err(e)) => Err(e),
        },
{
    match resolved {
        None => Ok(None),
        Some(Ok(u)) => Ok(Some(u)),
        Some(Err(e)) => Err(e),
    }
}

/// A token that does not decode or verify fails as `Unauthenticated`,
/// whatever the store would have said.
pub proof fn lemma_rejected_token(loaded: Bridged<UserRecord>)
    ensures
        resolve_spec(Err(TokenRejected), loaded) == Err::<UserRecord, ApiError>(
            ApiError::Unauthenticated,
        ),
{
}

/// A valid token of a user banned from the site fails as `SiteBanned`.
pub proof fn lemma_banned_user(claims: Claims, user: UserRecord)
    requires
        user.banned,
    ensures
        resolve_spec(Ok(claims), Ok(Ok(user))) == Err::<UserRecord, ApiError>(
            ApiError::SiteBanned,
        ),
{
}

} // verus!
