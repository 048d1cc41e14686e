use vstd::prelude::*;
use crate::error::{ApiError, Invalid};
use crate::ids::{parsed_id, ObjectId};
use crate::role::UserRole;

verus! {

/// The authenticated identity of one request.
#[derive(Debug)]
pub struct AuthUser {
    pub user_id: String,
    pub role: UserRole,
}

/// The role check: the principal's role is one of `allowed`.
pub open spec fn role_allowed(role: UserRole, allowed: Seq<UserRole>) -> bool {
    allowed.contains(role)
}

pub open spec fn role_outcome(role: UserRole, allowed: Seq<UserRole>) -> Result<(), ApiError> {
    if role_allowed(role, allowed) {
        Ok(())
    } else {
        Err(ApiError::Forbidden)
    }
}

/// The owner-or-role check. Both identities must parse; then the owner, or
/// anyone passing the role check, is admitted.
pub open spec fn owner_or_role_outcome(
    user_id: Seq<char>,
    role: UserRole,
    owner_id: Seq<char>,
    allowed: Seq<UserRole>,
) -> Result<(), ApiError> {
    match (parsed_id(user_id), parsed_id(owner_id)) {
        (Some(me), Some(owner)) => if me == owner || role_allowed(role, allowed) {
            Ok(())
        } else {
            Err(ApiError::Forbidden)
        },
        _ => Err(ApiError::Validation(Invalid::Id)),
    }
}

/// Accepts the principal when its role is in `allowed`; `Forbidden` otherwise.
pub fn require_role(user: &AuthUser, allowed: &[UserRole]) -> (r: Result<(), ApiError>)
    ensures
        r == role_outcome(user.role, allowed@),
{
    let mut i: usize = 0;
    while i < allowed.len()
        invariant
            i <= allowed@.len(),
            forall|j: int| 0 <= j < i ==> allowed@[j] != user.role,
        decreases allowed@.len() - i,
    {
        if allowed[i] == user.role {
            proof {
                assert(allowed@[i as int] == user.role);
            }
            return Ok(());
        }
        i = i + 1;
    }
    Err(ApiError::Forbidden)
}

/// Accepts the owner of a resource, or a principal whose role is in
/// `allowed`. An identity that does not parse is a validation error.
pub fn require_owner_or_role(user: &AuthUser, owner_id: &str, allowed: &[UserRole]) -> (r: Result<
    (),
    ApiError,
>)
    ensures
        r == owner_or_role_outcome(user.user_id@, user.role, owner_id@, allowed@),
{
    let me = ObjectId::parse_str(user.user_id.as_str());
    let owner = ObjectId::parse_str(owner_id);
    match (me, owner) {
        (Some(me), Some(owner)) => {
            if me == owner {
                Ok(())
            } else {
                require_role(user, allowed)
            }
        },
        _ => Err(ApiError::Validation(Invalid::Id)),
    }
}

} // verus!
