//! Credential verification: a user found by e-mail is let in when the account is not blocked
//! and the password matches the stored bcrypt hash.

use vstd::prelude::*;

use crate::errors::{AppError, AppResult, ErrorKind};

verus! {

#[verifier::external_type_specification]
#[verifier::external_body]
pub struct ExBcryptError(bcrypt::BcryptError);

/// What `bcrypt::verify` decides for a password and a stored hash: `Some(matches)`, or `None`
/// when it reports an error. It depends on these two strings alone (the salt and cost are
/// read from the hash).
pub uninterp spec fn bcrypt_verify_outcome(password: Seq<char>, hash: Seq<char>) -> Option<bool>;

/// The outline of a bcrypt hash that `bcrypt::verify` checks before hashing: 60 ASCII
/// characters, `$` at positions 0, 3 and 6, and a `2a`, `2b`, `2x` or `2y` version.
pub open spec fn bcrypt_outline_ok(hash: Seq<char>) -> bool {
    &&& hash.len() == 60
    &&& forall|i: int| 0 <= i < hash.len() ==> (#[trigger] hash[i] as u32) < 128
    &&& hash[0] == '$'
    &&& hash[3] == '$'
    &&& hash[6] == '$'
    &&& hash[1] == '2'
    &&& (hash[2] == 'a' || hash[2] == 'b' || hash[2] == 'x' || hash[2] == 'y')
}

/// `bcrypt::verify`: whether `password` hashes, with the cost and salt stored in `hash`, to
/// the digest stored in `hash`. Its answer is named, not stated; the source shows that a hash
/// without the bcrypt outline is reported as an error before any hashing.
#[verifier::external_body]
fn bcrypt_verify(password: &str, hash: &str) -> (r: Result<bool, bcrypt::BcryptError>)
    ensures
        match r {
            Ok(b) => bcrypt_verify_outcome(password@, hash@) == Some(b),
            Err(_) => bcrypt_verify_outcome(password@, hash@) is None,
        },
        !bcrypt_outline_ok(hash@) ==> r is Err,
{
    bcrypt::verify(password, hash)
}

/// What the authentication reads of a stored user.
#[derive(Debug)]
pub struct UserRecord {
    pub email: String,
    /// The bcrypt hash of the password.
    pub password: String,
    pub blocked: bool,
}

/// The message of a refused login, the same whether the e-mail or the password was wrong.
pub open spec fn invalid_credentials() -> Seq<char> {
    "Invalid credentials"@
}

/// The message of a login to a blocked account.
pub open spec fn account_blocked() -> Seq<char> {
    "Account is blocked"@
}

/// Whether `r` is the refusal for wrong credentials.
pub open spec fn is_invalid_credentials<T>(r: AppResult<T>) -> bool {
    r matches Err(e) && e.kind == ErrorKind::Unauthorized && e.message@ == invalid_credentials()
}

/// Credential verification (the interface that the controllers depend on).
pub trait IAuthService {
    /// Verify the password of the user found by e-mail (`None` when no user has it).
    fn authenticate(&self, found: Option<UserRecord>, password: &str) -> AppResult<UserRecord>;
}

/// The credential verifier.
pub struct AuthService;

impl AuthService {
    /// The verdict on an unblocked user once the password has been checked against the hash:
    /// let in on a match, refuse on a mismatch and when the hash could not be checked.
    pub fn finish_authentication(
        user: UserRecord,
        check: Result<bool, bcrypt::BcryptError>,
    ) -> (r: AppResult<UserRecord>)
        ensures
            check matches Ok(true) ==> r == Ok::<UserRecord, AppError>(user),
            !(check matches Ok(true)) ==> is_invalid_credentials(r),
    {
        let matched = match check {
            Ok(b) => b,
            Err(_) => false,
        };
        if !matched {
            return Err(AppError::unauthorized("Invalid credentials"));
        }
        Ok(user)
    }
}

impl IAuthService for AuthService {
    fn authenticate(&self, found: Option<UserRecord>, password: &str) -> (r: AppResult<UserRecord>)
        ensures
            match found {
                None => is_invalid_credentials(r),
                Some(u) => if u.blocked {
                    r matches Err(e) && e.kind == ErrorKind::Forbidden && e.message@
                        == account_blocked()
                } else {
                    &&& (r is Ok <==> bcrypt_verify_outcome(password@, u.password@) == Some(true))
                    &&& r is Ok ==> r == Ok::<UserRecord, AppError>(u)
                    &&& r is Err ==> is_invalid_credentials(r)
                    &&& !bcrypt_outline_ok(u.password@) ==> is_invalid_credentials(r)
                },
            },
    {
        let u = match found {
            Some(u) => u,
            None => {
                return Err(AppError::unauthorized("Invalid credentials"));
            },
        };
        if u.blocked {
            return Err(AppError::forbidden("Account is blocked"));
        }
        let check = bcrypt_verify(password, u.password.as_str());
        AuthService::finish_authentication(u, check)
    }
}

} // verus!
