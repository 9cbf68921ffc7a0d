use vstd::prelude::*;
use argon2::Error as Argon2Error;

verus! {

#[verifier::external_type_specification]
#[verifier::external_body]
pub struct ExArgon2Error(Argon2Error);

/// Whether the argon2 hash of `pwd` salted with `salt`, under the library's
/// default parameters and with the output length of `hash`, equals `hash`.
pub uninterp spec fn argon2_hash_matches(pwd: Seq<u8>, salt: Seq<u8>, hash: Seq<u8>) -> bool;

/// The inputs that argon2's default configuration refuses before hashing: a
/// password or salt longer than `u32::MAX` bytes, a salt shorter than 8
/// bytes, or an output length (the hash's length, taken as a `u32`) under 4.
pub open spec fn argon2_refuses(pwd_len: nat, salt_len: nat, hash_len: nat) -> bool {
    ||| pwd_len > 0xFFFF_FFFF
    ||| salt_len < 8
    ||| salt_len > 0xFFFF_FFFF
    ||| (hash_len as u32) < 4
}

/// Calls `argon2::verify_raw` with `argon2::Config::default()`. Trusted: it
/// fails exactly on the inputs that `Context::new` refuses for that
/// configuration, and otherwise answers whether the recomputed hash equals
/// `hash`, a function of the three byte strings alone.
#[verifier::external_body]
pub(crate) fn argon2_verify_raw(pwd: &[u8], salt: &[u8], hash: &[u8]) -> (r: Result<bool, Argon2Error>)
    ensures
        r is Err <==> argon2_refuses(pwd@.len(), salt@.len(), hash@.len()),
        r matches Ok(b) ==> b == argon2_hash_matches(pwd@, salt@, hash@),
{
    argon2::verify_raw(pwd, salt, hash, &argon2::Config::default())
}

} // verus!
