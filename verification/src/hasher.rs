use vstd::prelude::*;

verus! {

use vstd::string::StringSliceAdditionalSpecFns;

/// What `bcrypt::verify` answers for a password and a digest. `None` stands
/// for the structural failure (the digest is not a well-formed bcrypt string,
/// or carries a cost outside the allowed range); `Some(b)` for the verdict
/// `b`. The answer is a function of the two arguments alone: the salt and the
/// cost are read out of the digest itself.
pub uninterp spec fn bcrypt_verified(password: Seq<u8>, digest: Seq<char>) -> Option<bool>;

/// A digest that `bcrypt::verify` answers for no matter the password. Every
/// digest that `bcrypt::hash` hands out is of this shape.
pub open spec fn digest_wf(digest: Seq<char>) -> bool {
    forall|password: Seq<u8>| #[trigger] bcrypt_verified(password, digest) is Some
}

/// The password matches the digest: recomputing the digest's hash from the
/// password with the digest's own salt and cost reproduces it.
pub open spec fn digest_matches(password: Seq<u8>, digest: Seq<char>) -> bool {
    bcrypt_verified(password, digest) == Some(true)
}

/// Relies on `bcrypt::hash`: with the default cost it fails only when the
/// operating system yields no randomness for the salt; a digest it does hand
/// out is a well-formed bcrypt string that verifies the hashed password.
#[verifier::external_body]
pub(crate) fn hash_password(password: &str) -> (r: Result<String, ()>)
    ensures
        r matches Ok(digest) ==> digest_wf(digest@) && digest_matches(
            password.spec_bytes(),
            digest@,
        ),
{
    match bcrypt::hash(password.as_bytes(), bcrypt::DEFAULT_COST) {
        Ok(digest) => Ok(digest),
        Err(_) => Err(()),
    }
}

/// Relies on `bcrypt::verify`: recomputes the digest from the password and
/// the digest's embedded salt and cost, and compares in constant time.
#[verifier::external_body]
pub(crate) fn verify_password(password: &str, digest: &str) -> (r: Result<bool, ()>)
    ensures
        r matches Ok(b) ==> bcrypt_verified(password.spec_bytes(), digest@) == Some(b),
        r is Err ==> bcrypt_verified(password.spec_bytes(), digest@) is None,
{
    match bcrypt::verify(password.as_bytes(), digest) {
        Ok(b) => Ok(b),
        Err(_) => Err(()),
    }
}

} // verus!
