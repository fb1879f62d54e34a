use vstd::prelude::*;
use crate::error::{ApiError, Bridged, BlockingError};
use crate::identity::UserRecord;

verus! {

/// The admin guard's verdict on the loaded record.
pub open spec fn admin_verdict(loaded: Bridged<UserRecord>) -> Result<(), ApiError> {
    match loaded {
        Err(_) => Err(ApiError::InfrastructureFailure),
        Ok(Ok(u)) => if u.admin {
            Ok(())
        } else {
            Err(ApiError::NotAnAdmin)
        },
        Ok(Err(_)) => Err(ApiError::NotAnAdmin),
    }
}

/// Passes only for a user whose record was loaded and carries the admin flag.
pub fn is_admin(loaded: Bridged<UserRecord>) -> (r: Result<(), ApiError>)
    ensures
        r == admin_verdict(loaded),
{
    match loaded {
        Err(_) => Err(ApiError::InfrastructureFailure),
        Ok(Ok(u)) => {
            if u.admin {
                Ok(())
            } else {
                Err(ApiError::NotAnAdmin)
            }
        },
        Ok(Err(_)) => Err(ApiError::NotAnAdmin),
    }
}

/// Passes only when the store says that the user moderates the community or
/// is a site admin.
pub fn is_mod_or_admin(checked: Result<bool, BlockingError>) -> (r: Result<(), ApiError>)
    ensures
        r == match checked {
            Err(_) => Err(ApiError::InfrastructureFailure),
            Ok(true) => Ok(()),
            Ok(false) => Err(ApiError::NotAModOrAdmin),
        },
{
    match checked {
        Err(_) => Err(ApiError::InfrastructureFailure),
        Ok(true) => Ok(()),
        Ok(false) => Err(ApiError::NotAModOrAdmin),
    }
}

/// Fails only when a ban row for the pair was found; a lookup that found
/// nothing, or that failed, counts as no ban.
pub fn check_community_ban<T>(lookup: Bridged<T>) -> (r: Result<(), ApiError>)
    ensures
        r == match lookup {
            Err(_) => Err(ApiError::InfrastructureFailure),
            Ok(Ok(_)) => Err(ApiError::CommunityBanned),
            Ok(Err(_)) => Ok(()),
        },
{
    match lookup {
        Err(_) => Err(ApiError::InfrastructureFailure),
        Ok(Ok(_)) => Err(ApiError::CommunityBanned),
        Ok(Err(_)) => Ok(()),
    }
}

/// The post that was read, or `PostNotFound` in place of the store's error.
pub fn get_post<T>(loaded: Bridged<T>) -> (r: Result<T, ApiError>)
    ensures
        match loaded {
            Err(_) => r == Err::<T, ApiError>(ApiError::InfrastructureFailure),
            Ok(Err(_)) => r == Err::<T, ApiError>(ApiError::PostNotFound),
            Ok(Ok(p)) => r == Ok::<T, ApiError>(p),
        },
{
    match loaded {
        Err(_) => Err(ApiError::InfrastructureFailure),
        Ok(Err(_)) => Err(ApiError::PostNotFound),
        Ok(Ok(p)) => Ok(p),
    }
}

/// The admin guard keeps no state: asked twice about a user whose record
/// both times lacks the admin flag, it answers `NotAnAdmin` both times.
pub proof fn lemma_admin_check_repeats(first: UserRecord, second: UserRecord)
    requires
        first == second,
        !first.admin,
    ensures
        admin_verdict(Ok(Ok(first))) == Err::<(), ApiError>(ApiError::NotAnAdmin),
        admin_verdict(Ok(Ok(second))) == admin_verdict(Ok(Ok(first))),
{
}

} // verus!
