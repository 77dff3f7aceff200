//! One-way hashes of secrets, made and checked by the `bcrypt` crate.

use vstd::prelude::*;

verus! {

/// The error of the `bcrypt` crate.
#[verifier::external_type_specification]
#[verifier::external_body]
pub struct ExBcryptError(bcrypt::BcryptError);

/// Why no hash could be made.
#[derive(Debug, PartialEq, Eq, Structural, Clone, Copy)]
pub enum HashError {
    /// The hashing itself failed, for want of randomness for the salt.
    Unavailable,
}

/// What `bcrypt::verify` returns for a secret and a stored hash: whether the
/// secret gives that hash, or `None` where it returns an error because the
/// stored text is no well-formed hash.
pub uninterp spec fn bcrypt_outcome(secret: Seq<char>, hashed: Seq<char>) -> Option<bool>;

/// Calls `bcrypt::verify`, which takes cost and salt from `hashed`, hashes
/// `secret` with them and compares. It reads nothing but its arguments, so
/// its result has a name: [`bcrypt_outcome`].
#[verifier::external_body]
fn bcrypt_verify(secret: &str, hashed: &str) -> (outcome: Option<bool>)
    ensures
        outcome == bcrypt_outcome(secret@, hashed@),
{
    bcrypt::verify(secret, hashed).ok()
}

/// Calls `bcrypt::hash` with the crate's default cost. The salt is drawn at
/// random, so two calls differ; what holds of every hash that comes back is
/// that `bcrypt::verify` accepts the same secret against it, since it hashes
/// again with the salt and cost that the hash carries, and that it starts
/// with `$`, the sign with which bcrypt opens every hash that it writes.
#[verifier::external_body]
fn bcrypt_hash(secret: &str) -> (hashed: Result<String, bcrypt::BcryptError>)
    ensures
        hashed matches Ok(h) ==> bcrypt_outcome(secret@, h@) == Some(true) && is_marked(h@),
{
    bcrypt::hash(secret, bcrypt::DEFAULT_COST)
}

/// Whether a text bears the mark of a hash: it starts with `$`.
pub open spec fn is_marked(text: Seq<char>) -> bool {
    text.len() > 0 && text[0] == '$'
}

/// Whether an outcome of checking says that the secret is the hashed one.
pub open spec fn outcome_accepts(outcome: Option<bool>) -> bool {
    outcome == Some(true)
}

/// Whether `secret` is what `hashed` was made from.
pub open spec fn matches_hash(secret: Seq<char>, hashed: Seq<char>) -> bool {
    outcome_accepts(bcrypt_outcome(secret, hashed))
}

/// Whether an outcome of checking says that the secret is the hashed one: a
/// stored text that is no hash accepts nothing.
pub fn accepts(outcome: Option<bool>) -> (b: bool)
    ensures
        b == outcome_accepts(outcome),
{
    match outcome {
        Some(same) => same,
        None => false,
    }
}

/// Whether `secret` is what `hashed` was made from.
pub fn verify_secret(secret: &str, hashed: &str) -> (b: bool)
    ensures
        b == matches_hash(secret@, hashed@),
{
    accepts(bcrypt_verify(secret, hashed))
}

/// What the library makes of the outcome of hashing: the hash where one
/// was made, and [`HashError::Unavailable`] for whatever went wrong.
pub fn hashed_or_unavailable(outcome: Result<String, bcrypt::BcryptError>) -> (hashed: Result<
    String,
    HashError,
>)
    ensures
        match outcome {
            Ok(h) => hashed == Ok::<String, HashError>(h),
            Err(_) => hashed == Err::<String, HashError>(HashError::Unavailable),
        },
{
    match outcome {
        Ok(h) => Ok(h),
        Err(_) => Err(HashError::Unavailable),
    }
}

/// A hash of `secret`, which [`verify_secret`] accepts for `secret` and
/// which bears the mark of a hash. Whether one can be made is for the source of randomness to say, from which the
/// salt is drawn.
pub fn hash_secret(secret: &str) -> (hashed: Result<String, HashError>)
    ensures
        hashed matches Ok(h) ==> matches_hash(secret@, h@) && is_marked(h@),
{
    hashed_or_unavailable(bcrypt_hash(secret))
}

/// The outcome of hashing `secret` where there is one: `None` where there is
/// nothing to hash.
pub fn hash_optional(secret: &Option<String>) -> (hashed: Option<Result<String, HashError>>)
    ensures
        hashed is Some <==> secret is Some,
        hashed matches Some(Ok(h)) ==> secret is Some && matches_hash(secret->0@, h@),
{
    match secret {
        Some(text) => Some(hash_secret(text.as_str())),
        None => None,
    }
}

} // verus!
