use vstd::prelude::*;

verus! {

#[verifier::external_type_specification]
#[verifier::external_body]
pub struct ExBcryptError(bcrypt::BcryptError);

/// What `bcrypt::verify` answers for a password and a stored hash: `None`
/// where it cannot read the hash.
pub uninterp spec fn bcrypt_verdict(password: Seq<char>, hash: Seq<char>) -> Option<bool>;

type BcryptResult<T> = Result<T, bcrypt::BcryptError>;

/// Relies on `bcrypt::hash` at `bcrypt::DEFAULT_COST`: the salt is drawn at
/// random (drawing it is the one way to fail), and `bcrypt::verify` accepts
/// the same password against the result.
#[verifier::external_body]
pub(crate) fn hash_password(password: &str) -> (r: BcryptResult<String>)
    ensures
        r is Ok ==> bcrypt_verdict(password@, r->Ok_0@) == Some(true),
{
    bcrypt::hash(password, bcrypt::DEFAULT_COST)
}

/// Relies on `bcrypt::verify`: whether the password matches the stored hash,
/// or an error where the hash cannot be read.
#[verifier::external_body]
pub(crate) fn verify_password(password: &str, hash: &str) -> (r: BcryptResult<bool>)
    ensures
        r is Ok <==> bcrypt_verdict(password@, hash@) is Some,
        r is Ok ==> bcrypt_verdict(password@, hash@) == Some(r->Ok_0),
{
    bcrypt::verify(password, hash)
}

} // verus!
