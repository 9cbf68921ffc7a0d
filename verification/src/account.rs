use vstd::prelude::*;

use vstd::string::{StrSliceExecFns, StringSliceAdditionalSpecFns};

use crate::password_hash::{argon2_hash_matches, argon2_refuses, argon2_verify_raw};
use crate::error::{Error, ErrorCode, InternalError, logic_error, is_logic_with_context, is_argument_format_error};

verus! {

/// The account settings of the service configuration.
#[derive(Debug, Clone, Copy, PartialEq, Eq)]
pub struct AccountConfig {
    pub min_password_length: usize,
    pub max_password_length: usize,
}

/// The length of a password as the service measures it: its UTF-8 bytes.
pub open spec fn password_len(password: &str) -> nat {
    password.spec_bytes().len()
}

/// A password is acceptable when its byte length lies within the configured bounds.
pub open spec fn password_length_ok(password: &str, config: AccountConfig) -> bool {
    config.min_password_length <= password_len(password) <= config.max_password_length
}

/// Refuses a password whose length in bytes lies outside
/// `[min_password_length, max_password_length]`.
pub fn check_password_length(password: &str, config: &AccountConfig) -> (r: Result<(), Error>)
    ensures
        r is Ok <==> password_length_ok(password, *config),
        r is Ok <==> (config.min_password_length <= password.spec_bytes().len()
            && password.spec_bytes().len() <= config.max_password_length),
        r is Err ==> r == Err::<(), Error>(logic_error(ErrorCode::PasswordLength)),
{
    let len = password.as_bytes().len();
    if len > config.max_password_length || len < config.min_password_length {
        return Err(Error::from_code(ErrorCode::PasswordLength));
    }
    Ok(())
}

} // verus!

verus! {

/// The stored salt and password hash of a user.
#[derive(Debug, Clone, PartialEq, Eq)]
pub struct Credentials {
    pub salt: Vec<u8>,
    pub password_hashed: Vec<u8>,
}

/// What checking `password` against `salt` and `hash` gives: a hashing
/// failure, or whether the hash matches.
pub open spec fn password_verification(password: &str, salt: Seq<u8>, hash: Seq<u8>) -> Result<bool, Error> {
    if argon2_refuses(password_len(password), salt.len(), hash.len()) {
        Err(Error::Internal(InternalError::PasswordHash))
    } else {
        Ok(argon2_hash_matches(password.spec_bytes(), salt, hash))
    }
}

/// Checks `password` against a stored salt and argon2 hash.
pub fn verify_password(password: &str, salt: &[u8], hash: &[u8]) -> (r: Result<bool, Error>)
    ensures
        r == password_verification(password, salt@, hash@),
        r is Err <==> argon2_refuses(password.spec_bytes().len(), salt@.len(), hash@.len()),
        r is Err ==> r == Err::<bool, Error>(Error::Internal(InternalError::PasswordHash)),
        r matches Ok(b) ==> b == argon2_hash_matches(password.spec_bytes(), salt@, hash@),
{
    match argon2_verify_raw(password.as_bytes(), salt, hash) {
        Ok(b) => Ok(b),
        Err(_) => Err(Error::Internal(InternalError::PasswordHash)),
    }
}

/// The wrong-password refusal.
pub open spec fn is_wrong_password(e: Error) -> bool {
    is_logic_with_context(e, ErrorCode::PermissionDenied, "密碼錯誤"@)
}

/// The unknown-user refusal.
pub open spec fn is_unknown_user(e: Error) -> bool {
    is_logic_with_context(e, ErrorCode::PermissionDenied, "查無使用者"@)
}

/// Turns the outcome of a password check into the login decision: a match
/// admits the user, a mismatch is refused as a wrong password, and a
/// hashing failure is passed on.
pub fn password_check_verdict(verified: Result<bool, Error>) -> (r: Result<(), Error>)
    ensures
        verified == Ok::<bool, Error>(true) ==> r is Ok,
        verified == Ok::<bool, Error>(false) ==> (r matches Err(e) && is_wrong_password(e)),
        verified is Err ==> r == Err::<(), Error>(verified->Err_0),
{
    match verified {
        Ok(true) => Ok(()),
        Ok(false) => Err(Error::with_context(ErrorCode::PermissionDenied, "密碼錯誤")),
        Err(e) => Err(e),
    }
}

/// Decides a login from the password given and the credentials stored under
/// the user name: unknown users and wrong passwords are refused; a user is
/// admitted only when the password hashes to the stored hash.
pub fn authenticate(password: &str, credentials: Option<Credentials>) -> (r: Result<(), Error>)
    ensures
        credentials is None ==> (r matches Err(e) && is_unknown_user(e)),
        credentials matches Some(c) ==> {
            let v = password_verification(password, c.salt@, c.password_hashed@);
            &&& (r is Ok <==> v == Ok::<bool, Error>(true))
            &&& v == Ok::<bool, Error>(false) ==> (r matches Err(e) && is_wrong_password(e))
            &&& v is Err ==> r == Err::<(), Error>(v->Err_0)
        },
        credentials matches Some(c) ==> (!argon2_refuses(
            password.spec_bytes().len(),
            c.salt@.len(),
            c.password_hashed@.len(),
        ) ==> (r is Ok <==> argon2_hash_matches(password.spec_bytes(), c.salt@, c.password_hashed@))),
{
    match credentials {
        None => Err(Error::with_context(ErrorCode::PermissionDenied, "查無使用者")),
        Some(c) => {
            let verified = verify_password(password, c.salt.as_slice(), c.password_hashed.as_slice());
            password_check_verdict(verified)
        },
    }
}

} // verus!

verus! {

/// The longest self-introduction a user may keep, in characters.
pub const MAX_INTRODUCTION_CHARS: usize = 1000;

/// Refuses a self-introduction of more than 1000 characters, naming the
/// introduction's length as the faulty argument.
pub fn check_introduction(introduction: &str) -> (r: Result<(), Error>)
    ensures
        r is Ok <==> introduction@.len() <= MAX_INTRODUCTION_CHARS,
        r matches Err(e) ==> is_argument_format_error(e, "自我介紹長度"@),
{
    if introduction.unicode_len() > MAX_INTRODUCTION_CHARS {
        return Err(Error::from_code(ErrorCode::ArgumentFormatError(String::from_str("自我介紹長度"))));
    }
    Ok(())
}

/// Checking a password hashes all of its UTF-8 bytes: when argon2 accepts
/// the lengths, the answer is whether the complete byte string of the
/// password, under the stored salt, hashes to the stored hash; argon2
/// refuses by the full password length, never a prefix of it.
pub proof fn law_password_check_uses_whole_password(password: &str, salt: Seq<u8>, hash: Seq<u8>)
    ensures
        password_verification(password, salt, hash) is Err <==> argon2_refuses(
            password.spec_bytes().len(),
            salt.len(),
            hash.len(),
        ),
        !argon2_refuses(password.spec_bytes().len(), salt.len(), hash.len()) ==> password_verification(
            password,
            salt,
            hash,
        ) == Ok::<bool, Error>(argon2_hash_matches(password.spec_bytes(), salt, hash)),
{
}

/// Two passwords are told apart as their complete byte strings are: passwords
/// with the same bytes get the same answer, and a password is admitted by
/// `authenticate` exactly when its whole byte string hashes to the stored hash.
pub proof fn law_same_bytes_same_answer(p1: &str, p2: &str, salt: Seq<u8>, hash: Seq<u8>)
    ensures
        p1.spec_bytes() == p2.spec_bytes() ==> password_verification(p1, salt, hash) == password_verification(
            p2,
            salt,
            hash,
        ),
        password_verification(p1, salt, hash) == Ok::<bool, Error>(true) ==> argon2_hash_matches(
            p1.spec_bytes(),
            salt,
            hash,
        ),
{
}

} // verus!
